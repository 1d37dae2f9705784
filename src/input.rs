use vstd::prelude::*;

verus! {

/// The keys the viewer tells apart.
#[derive(Clone, Copy, Debug, PartialEq, Eq, Structural)]
pub enum Key {
    Up,
    Down,
    Left,
    Right,
    Q,
    E,
    W,
    Space,
    Escape,
    Other,
}

/// What one key press asks of the camera or of the loop. Angles and heights
/// move by one fixed step per press.
#[derive(Clone, Copy, Debug, PartialEq, Eq, Structural)]
pub enum InputAction {
    /// Nothing to do.
    Ignore,
    /// pitch decreases by one step
    PitchUp,
    /// pitch increases by one step
    PitchDown,
    /// yaw decreases by one step
    YawLeft,
    /// yaw increases by one step
    YawRight,
    /// position.y decreases by one step
    Descend,
    /// position.y increases by one step
    Ascend,
    /// position moves by the unit vector along `(cos yaw, sin pitch, sin yaw)`
    Forward,
    /// the loop is to stop
    Exit,
}

/// The key table. Releases and unlisted keys do nothing.
pub open spec fn key_action(key: Key, pressed: bool) -> InputAction {
    if !pressed {
        InputAction::Ignore
    } else {
        match key {
            Key::Up => InputAction::PitchUp,
            Key::Down => InputAction::PitchDown,
            Key::Left => InputAction::YawLeft,
            Key::Right => InputAction::YawRight,
            Key::Q => InputAction::Descend,
            Key::E => InputAction::Ascend,
            Key::W => InputAction::Forward,
            Key::Escape => InputAction::Exit,
            _ => InputAction::Ignore,
        }
    }
}

/// Signed steps that an action applies to (pitch, yaw, height).
pub open spec fn step_deltas(a: InputAction) -> (int, int, int) {
    match a {
        InputAction::PitchUp => (-1, 0, 0),
        InputAction::PitchDown => (1, 0, 0),
        InputAction::YawLeft => (0, -1, 0),
        InputAction::YawRight => (0, 1, 0),
        InputAction::Descend => (0, 0, -1),
        InputAction::Ascend => (0, 0, 1),
        _ => (0, 0, 0),
    }
}

/// Maps one keyboard event to its action.
pub fn map_key(key: Key, pressed: bool) -> (r: InputAction)
    ensures
        r == key_action(key, pressed),
{
    if !pressed {
        return InputAction::Ignore;
    }
    match key {
        Key::Up => InputAction::PitchUp,
        Key::Down => InputAction::PitchDown,
        Key::Left => InputAction::YawLeft,
        Key::Right => InputAction::YawRight,
        Key::Q => InputAction::Descend,
        Key::E => InputAction::Ascend,
        Key::W => InputAction::Forward,
        Key::Escape => InputAction::Exit,
        Key::Space | Key::Other => InputAction::Ignore,
    }
}

/// The number of fixed steps an action moves (pitch, yaw, height) by;
/// `Forward` moves along the view direction instead and counts as no step here.
pub fn action_steps(a: InputAction) -> (r: (i8, i8, i8))
    ensures
        (r.0 as int, r.1 as int, r.2 as int) == step_deltas(a),
{
    match a {
        InputAction::PitchUp => (-1, 0, 0),
        InputAction::PitchDown => (1, 0, 0),
        InputAction::YawLeft => (0, -1, 0),
        InputAction::YawRight => (0, 1, 0),
        InputAction::Descend => (0, 0, -1),
        InputAction::Ascend => (0, 0, 1),
        _ => (0, 0, 0),
    }
}

} // verus!
