//! The discrete side of camera input: which movement keys are held, the
//! impulse they add up to, and the cursor lock.

use vstd::prelude::*;

verus! {

/// The keys the engine reacts to; every other key is `Other`.
#[derive(Clone, Copy, PartialEq, Eq, Structural, Debug)]
pub enum Key {
    W,
    A,
    S,
    D,
    Up,
    Down,
    Left,
    Right,
    Space,
    LShift,
    Tab,
    Escape,
    Other,
}

/// A direction of camera motion.
#[derive(Clone, Copy, PartialEq, Eq, Structural, Debug)]
pub enum Direction {
    Forward,
    Backward,
    Left,
    Right,
    Up,
    Down,
}

/// The direction a key moves in: W/Up forward, S/Down backward, A/Left left,
/// D/Right right, Space up, left Shift down.
pub open spec fn key_direction(key: Key) -> Option<Direction> {
    match key {
        Key::W | Key::Up => Some(Direction::Forward),
        Key::S | Key::Down => Some(Direction::Backward),
        Key::A | Key::Left => Some(Direction::Left),
        Key::D | Key::Right => Some(Direction::Right),
        Key::Space => Some(Direction::Up),
        Key::LShift => Some(Direction::Down),
        _ => None,
    }
}

/// Which movement keys are held.
#[derive(Clone, Copy, PartialEq, Eq, Structural, Debug)]
pub struct MotionKeys {
    pub forward: bool,
    pub backward: bool,
    pub left: bool,
    pub right: bool,
    pub up: bool,
    pub down: bool,
}

/// The impulse of the held keys, one unit per axis: `x` to the right, `y`
/// forward, `z` up.
#[derive(Clone, Copy, PartialEq, Eq, Structural, Debug)]
pub struct Impulse {
    pub x: i32,
    pub y: i32,
    pub z: i32,
}

pub open spec fn unit(b: bool) -> int {
    if b {
        1
    } else {
        0
    }
}

impl MotionKeys {
    pub open spec fn held(&self, d: Direction) -> bool {
        match d {
            Direction::Forward => self.forward,
            Direction::Backward => self.backward,
            Direction::Left => self.left,
            Direction::Right => self.right,
            Direction::Up => self.up,
            Direction::Down => self.down,
        }
    }

    /// These keys with `d` set to `pressed`.
    pub open spec fn with(&self, d: Direction, pressed: bool) -> MotionKeys {
        match d {
            Direction::Forward => MotionKeys { forward: pressed, ..*self },
            Direction::Backward => MotionKeys { backward: pressed, ..*self },
            Direction::Left => MotionKeys { left: pressed, ..*self },
            Direction::Right => MotionKeys { right: pressed, ..*self },
            Direction::Up => MotionKeys { up: pressed, ..*self },
            Direction::Down => MotionKeys { down: pressed, ..*self },
        }
    }

    pub open spec fn impulse_spec(&self) -> Impulse {
        Impulse {
            x: (unit(self.right) - unit(self.left)) as i32,
            y: (unit(self.forward) - unit(self.backward)) as i32,
            z: (unit(self.up) - unit(self.down)) as i32,
        }
    }

    pub open spec fn none() -> MotionKeys {
        MotionKeys { forward: false, backward: false, left: false, right: false, up: false, down: false }
    }

    /// No key held.
    pub fn new() -> (r: MotionKeys)
        ensures
            r == MotionKeys::none(),
    {
        MotionKeys { forward: false, backward: false, left: false, right: false, up: false, down: false }
    }

    /// Records a press or release of `key`. Returns whether the key is a
    /// movement key; any other key leaves the state as it was.
    pub fn process_keyboard(&mut self, key: Key, pressed: bool) -> (r: bool)
        ensures
            r == (key_direction(key) is Some),
            match key_direction(key) {
                Some(d) => *final(self) == old(self).with(d, pressed),
                None => *final(self) == *old(self),
            },
    {
        match key {
            Key::W | Key::Up => {
                self.forward = pressed;
                true
            },
            Key::S | Key::Down => {
                self.backward = pressed;
                true
            },
            Key::A | Key::Left => {
                self.left = pressed;
                true
            },
            Key::D | Key::Right => {
                self.right = pressed;
                true
            },
            Key::Space => {
                self.up = pressed;
                true
            },
            Key::LShift => {
                self.down = pressed;
                true
            },
            _ => false,
        }
    }

    /// Opposite keys cancel; each axis is -1, 0 or 1.
    pub fn impulse(&self) -> (r: Impulse)
        ensures
            r == self.impulse_spec(),
            -1 <= r.x <= 1,
            -1 <= r.y <= 1,
            -1 <= r.z <= 1,
    {
        Impulse {
            x: (self.right as i32) - (self.left as i32),
            y: (self.forward as i32) - (self.backward as i32),
            z: (self.up as i32) - (self.down as i32),
        }
    }
}

/// What the window does after a key event.
#[derive(Clone, Copy, PartialEq, Eq, Structural, Debug)]
pub enum KeyAction {
    /// Leave the event loop.
    Exit,
    /// Confine and hide the cursor.
    LockCursor,
    /// Free and show the cursor.
    ReleaseCursor,
    /// A movement key changed the held keys.
    Move,
    /// Nothing to do.
    Ignore,
}

/// The held movement keys and whether the cursor is locked to the window.
#[derive(Clone, Copy, PartialEq, Eq, Structural, Debug)]
pub struct InputState {
    pub keys: MotionKeys,
    pub cursor_locked: bool,
}

impl InputState {
    /// No key held, cursor free.
    pub fn new() -> (r: InputState)
        ensures
            r == (InputState { keys: MotionKeys::none(), cursor_locked: false }),
    {
        InputState { keys: MotionKeys::new(), cursor_locked: false }
    }

    /// Routes one key event. A press of Escape exits; a press of Tab toggles
    /// the cursor lock; movement keys, pressed or released, update the held
    /// keys; everything else is ignored.
    pub fn window_input(&mut self, key: Key, pressed: bool) -> (r: KeyAction)
        ensures
            key == Key::Escape && pressed ==> r == KeyAction::Exit && *final(self) == *old(self),
            key == Key::Tab && pressed ==> {
                &&& final(self).cursor_locked == !old(self).cursor_locked
                &&& final(self).keys == old(self).keys
                &&& r == if old(self).cursor_locked {
                    KeyAction::ReleaseCursor
                } else {
                    KeyAction::LockCursor
                }
            },
            key_direction(key) is Some ==> {
                &&& r == KeyAction::Move
                &&& final(self).keys == old(self).keys.with(key_direction(key)->Some_0, pressed)
                &&& final(self).cursor_locked == old(self).cursor_locked
            },
            key_direction(key) is None && !((key == Key::Escape || key == Key::Tab) && pressed) ==> {
                &&& r == KeyAction::Ignore
                &&& *final(self) == *old(self)
            },
    {
        if pressed && key == Key::Escape {
            return KeyAction::Exit;
        }
        if pressed && key == Key::Tab {
            self.cursor_locked = !self.cursor_locked;
            return if self.cursor_locked {
                KeyAction::LockCursor
            } else {
                KeyAction::ReleaseCursor
            };
        }
        if self.keys.process_keyboard(key, pressed) {
            KeyAction::Move
        } else {
            KeyAction::Ignore
        }
    }

    /// Mouse motion turns the camera only while the cursor is locked.
    pub fn device_input(&self) -> (r: bool)
        ensures
            r == self.cursor_locked,
    {
        self.cursor_locked
    }
}

} // verus!
