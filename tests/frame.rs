use voxel_demo::frame::{FrameClock, FrameLoop, LoopAction, LoopEvent, WindowEvent};
use voxel_demo::input::{action_steps, map_key, InputAction, Key};

fn press(key: Key) -> LoopEvent {
    LoopEvent::Window { event: WindowEvent::Keyboard { key, pressed: true }, handled: false }
}

#[test]
fn key_table() {
    assert_eq!(map_key(Key::Up, true), InputAction::PitchUp);
    assert_eq!(map_key(Key::Down, true), InputAction::PitchDown);
    assert_eq!(map_key(Key::Left, true), InputAction::YawLeft);
    assert_eq!(map_key(Key::Right, true), InputAction::YawRight);
    assert_eq!(map_key(Key::Q, true), InputAction::Descend);
    assert_eq!(map_key(Key::E, true), InputAction::Ascend);
    assert_eq!(map_key(Key::W, true), InputAction::Forward);
    assert_eq!(map_key(Key::Escape, true), InputAction::Exit);
    assert_eq!(map_key(Key::Space, true), InputAction::Ignore);
    assert_eq!(map_key(Key::Other, true), InputAction::Ignore);
    assert_eq!(map_key(Key::W, false), InputAction::Ignore);
    assert_eq!(map_key(Key::Escape, false), InputAction::Ignore);
}

#[test]
fn action_steps_signs() {
    assert_eq!(action_steps(InputAction::PitchUp), (-1, 0, 0));
    assert_eq!(action_steps(InputAction::PitchDown), (1, 0, 0));
    assert_eq!(action_steps(InputAction::YawLeft), (0, -1, 0));
    assert_eq!(action_steps(InputAction::YawRight), (0, 1, 0));
    assert_eq!(action_steps(InputAction::Descend), (0, 0, -1));
    assert_eq!(action_steps(InputAction::Ascend), (0, 0, 1));
    assert_eq!(action_steps(InputAction::Forward), (0, 0, 0));
}

#[test]
fn escape_exits_from_any_state() {
    let mut fresh = FrameLoop::new();
    assert_eq!(fresh.step(press(Key::Escape)), LoopAction::Exit);
    assert!(fresh.exit_requested);

    let mut busy = FrameLoop::new();
    busy.step(LoopEvent::MainEventsCleared);
    assert!(busy.redraw_pending);
    assert_eq!(busy.step(press(Key::Escape)), LoopAction::Exit);
    assert!(busy.exit_requested);
}

#[test]
fn close_request_exits() {
    let mut l = FrameLoop::new();
    let ev = LoopEvent::Window { event: WindowEvent::CloseRequested, handled: false };
    assert_eq!(l.step(ev), LoopAction::Exit);
    assert!(l.exit_requested);
}

#[test]
fn handled_events_are_not_dispatched() {
    let mut l = FrameLoop::new();
    let ev = LoopEvent::Window {
        event: WindowEvent::Keyboard { key: Key::Escape, pressed: true },
        handled: true,
    };
    assert_eq!(l.step(ev), LoopAction::Nothing);
    assert!(!l.exit_requested);
}

#[test]
fn resize_passes_exact_size() {
    let mut l = FrameLoop::new();
    let ev = LoopEvent::Window { event: WindowEvent::Resized { width: 800, height: 600 }, handled: false };
    assert_eq!(l.step(ev), LoopAction::Resize { width: 800, height: 600 });
    let ev = LoopEvent::Window {
        event: WindowEvent::ScaleFactorChanged { width: 1600, height: 1200 },
        handled: false,
    };
    assert_eq!(l.step(ev), LoopAction::Resize { width: 1600, height: 1200 });
}

#[test]
fn redraw_cycle() {
    let mut l = FrameLoop::new();
    assert_eq!(l.step(LoopEvent::MainEventsCleared), LoopAction::RequestRedraw);
    assert!(l.redraw_pending);
    assert_eq!(l.frames, 0);
    assert_eq!(l.step(LoopEvent::RedrawRequested), LoopAction::Redraw);
    assert!(!l.redraw_pending);
    assert_eq!(l.frames, 1);
    assert_eq!(l.step(LoopEvent::Other), LoopAction::Nothing);
    assert!(!l.exit_requested);
}

#[test]
fn camera_keys_become_camera_actions() {
    let mut l = FrameLoop::new();
    assert_eq!(l.step(press(Key::W)), LoopAction::Camera { action: InputAction::Forward });
    assert_eq!(l.step(press(Key::Left)), LoopAction::Camera { action: InputAction::YawLeft });
    assert_eq!(l.step(press(Key::Space)), LoopAction::Nothing);
}

#[test]
fn frame_duration_has_minimum_one() {
    let mut clock = FrameClock::new(1000);
    assert_eq!(clock.finish_frame(1000), 1);
    assert_eq!(clock.finish_frame(1016), 17);
    assert_eq!(clock.frame_begin_ms, 1016);
    assert_eq!(clock.finish_frame(1010), 1);
    let mut far = FrameClock::new(0);
    assert_eq!(far.finish_frame(u64::MAX), u64::MAX);
}
