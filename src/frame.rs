use vstd::prelude::*;

use crate::input::{key_action, map_key, InputAction, Key};

verus! {

/// The window events the loop dispatches.
#[derive(Clone, Copy, Debug, PartialEq, Eq, Structural)]
pub enum WindowEvent {
    CloseRequested,
    Keyboard { key: Key, pressed: bool },
    Resized { width: u32, height: u32 },
    ScaleFactorChanged { width: u32, height: u32 },
    Other,
}

/// One event from the event source. `handled` tells whether the presentation
/// layer's own input handling already took a window event.
#[derive(Clone, Copy, Debug, PartialEq, Eq, Structural)]
pub enum LoopEvent {
    MainEventsCleared,
    Window { event: WindowEvent, handled: bool },
    RedrawRequested,
    Other,
}

/// What the host is to do after an event.
#[derive(Clone, Copy, Debug, PartialEq, Eq, Structural)]
pub enum LoopAction {
    Nothing,
    /// ask the window for a redraw; drawing waits for `RedrawRequested`
    RequestRedraw,
    /// apply a key's effect to the camera
    Camera { action: InputAction },
    /// hand this size to the presentation layer
    Resize { width: u32, height: u32 },
    /// advance time-dependent state, render, then close the frame on the clock
    Redraw,
    /// stop the loop
    Exit,
}

/// The action for an event, whatever the loop's state.
pub open spec fn dispatch(event: LoopEvent) -> LoopAction {
    match event {
        LoopEvent::MainEventsCleared => LoopAction::RequestRedraw,
        LoopEvent::RedrawRequested => LoopAction::Redraw,
        LoopEvent::Other => LoopAction::Nothing,
        LoopEvent::Window { event, handled } => if handled {
            LoopAction::Nothing
        } else {
            match event {
                WindowEvent::CloseRequested => LoopAction::Exit,
                WindowEvent::Keyboard { key, pressed } => match key_action(key, pressed) {
                    InputAction::Ignore => LoopAction::Nothing,
                    InputAction::Exit => LoopAction::Exit,
                    a => LoopAction::Camera { action: a },
                },
                WindowEvent::Resized { width, height } => LoopAction::Resize { width, height },
                WindowEvent::ScaleFactorChanged { width, height } => LoopAction::Resize {
                    width,
                    height,
                },
                WindowEvent::Other => LoopAction::Nothing,
            }
        },
    }
}

/// State of the frame loop: whether it is to stop, whether a redraw was
/// asked for and not yet drawn, and how many frames were drawn.
pub struct FrameLoop {
    pub exit_requested: bool,
    pub redraw_pending: bool,
    pub frames: u64,
}

impl FrameLoop {
    /// The loop as it starts: polling, nothing pending.
    pub fn new() -> (r: FrameLoop)
        ensures
            !r.exit_requested,
            !r.redraw_pending,
            r.frames == 0,
    {
        FrameLoop { exit_requested: false, redraw_pending: false, frames: 0 }
    }

    /// Dispatches one event: returns what the host is to do and records it.
    /// An exit request, once made, stays.
    pub fn step(&mut self, event: LoopEvent) -> (r: LoopAction)
        ensures
            r == dispatch(event),
            final(self).exit_requested == (old(self).exit_requested || r == LoopAction::Exit),
            final(self).redraw_pending == (if r == LoopAction::RequestRedraw {
                true
            } else if r == LoopAction::Redraw {
                false
            } else {
                old(self).redraw_pending
            }),
            final(self).frames == (if r == LoopAction::Redraw && old(self).frames < u64::MAX {
                old(self).frames + 1
            } else {
                old(self).frames as int
            }),
    {
        let r = match event {
            LoopEvent::MainEventsCleared => LoopAction::RequestRedraw,
            LoopEvent::RedrawRequested => LoopAction::Redraw,
            LoopEvent::Other => LoopAction::Nothing,
            LoopEvent::Window { event, handled } => {
                if handled {
                    LoopAction::Nothing
                } else {
                    dispatch_window(event)
                }
            },
        };
        match r {
            LoopAction::Exit => {
                self.exit_requested = true;
            },
            LoopAction::RequestRedraw => {
                self.redraw_pending = true;
            },
            LoopAction::Redraw => {
                self.redraw_pending = false;
                if self.frames < u64::MAX {
                    self.frames = self.frames + 1;
                }
            },
            _ => {},
        }
        r
    }
}

fn dispatch_window(event: WindowEvent) -> (r: LoopAction)
    ensures
        r == dispatch(LoopEvent::Window { event, handled: false }),
{
    match event {
        WindowEvent::CloseRequested => LoopAction::Exit,
        WindowEvent::Keyboard { key, pressed } => match map_key(key, pressed) {
            InputAction::Ignore => LoopAction::Nothing,
            InputAction::Exit => LoopAction::Exit,
            a => LoopAction::Camera { action: a },
        },
        WindowEvent::Resized { width, height } => LoopAction::Resize { width, height },
        WindowEvent::ScaleFactorChanged { width, height } => LoopAction::Resize { width, height },
        WindowEvent::Other => LoopAction::Nothing,
    }
}

/// Timestamp, in milliseconds, of the start of the current frame.
pub struct FrameClock {
    pub frame_begin_ms: u64,
}

/// A frame's duration: the elapsed milliseconds plus one, so that a rate can
/// always be derived from it; a clock that went back counts as no time.
pub open spec fn frame_duration_spec(begin_ms: u64, now_ms: u64) -> int {
    let elapsed = if now_ms >= begin_ms {
        now_ms - begin_ms
    } else {
        0
    };
    if elapsed < u64::MAX {
        elapsed + 1
    } else {
        u64::MAX as int
    }
}

impl FrameClock {
    pub fn new(now_ms: u64) -> (r: FrameClock)
        ensures
            r.frame_begin_ms == now_ms,
    {
        FrameClock { frame_begin_ms: now_ms }
    }

    /// Closes the frame at `now_ms`: returns its duration and starts the next.
    pub fn finish_frame(&mut self, now_ms: u64) -> (r: u64)
        ensures
            r == frame_duration_spec(old(self).frame_begin_ms, now_ms),
            r >= 1,
            final(self).frame_begin_ms == now_ms,
    {
        let elapsed = now_ms.saturating_sub(self.frame_begin_ms);
        self.frame_begin_ms = now_ms;
        elapsed.saturating_add(1)
    }
}

/// An unhandled press of Escape stops the loop within that one dispatch,
/// whatever state the loop was in.
pub proof fn lemma_escape_exits(before: FrameLoop, after: FrameLoop, r: LoopAction)
    requires
        r == dispatch(LoopEvent::Window {
            event: WindowEvent::Keyboard { key: Key::Escape, pressed: true },
            handled: false,
        }),
        after.exit_requested == (before.exit_requested || r == LoopAction::Exit),
    ensures
        r == LoopAction::Exit,
        after.exit_requested,
{
}

/// A resize of the window hands exactly its new size to the presentation
/// layer.
pub proof fn lemma_resize_passes_size(width: u32, height: u32)
    ensures
        dispatch(
            LoopEvent::Window { event: WindowEvent::Resized { width, height }, handled: false },
        ) == (LoopAction::Resize { width, height }),
{
}

} // verus!
