use vstd::prelude::*;

verus! {

/// A horizontal direction, as read from the arrow keys.
#[derive(Clone, Copy, Debug, PartialEq, Eq, Structural)]
pub enum HKey {
    Left,
    Right,
}

/// The keys the game reads.
#[derive(Clone, Copy, Debug, PartialEq, Eq, Structural)]
pub enum Key {
    Left,
    Right,
    Up,
    Down,
    Space,
    Return,
}

/// One flag per key of `Key`.
#[derive(Clone, Copy, Debug, PartialEq, Eq, Structural)]
pub struct Keys {
    pub left: bool,
    pub right: bool,
    pub up: bool,
    pub down: bool,
    pub space: bool,
    pub enter: bool,
}

/// A snapshot of the keyboard for one tick: which keys are held, and which
/// went down during this tick.
#[derive(Clone, Copy, Debug, PartialEq, Eq, Structural)]
pub struct Input {
    pub down: Keys,
    pub pressed: Keys,
}

impl Keys {
    pub open spec fn has(self, key: Key) -> bool {
        match key {
            Key::Left => self.left,
            Key::Right => self.right,
            Key::Up => self.up,
            Key::Down => self.down,
            Key::Space => self.space,
            Key::Return => self.enter,
        }
    }

    /// No key at all.
    pub fn none() -> (r: Keys)
        ensures
            r == (Keys { left: false, right: false, up: false, down: false, space: false, enter: false }),
            forall|k: Key| !r.has(k),
    {
        Keys { left: false, right: false, up: false, down: false, space: false, enter: false }
    }

    pub fn contains(&self, key: Key) -> (r: bool)
        ensures
            r == self.has(key),
    {
        match key {
            Key::Left => self.left,
            Key::Right => self.right,
            Key::Up => self.up,
            Key::Down => self.down,
            Key::Space => self.space,
            Key::Return => self.enter,
        }
    }
}

impl Input {
    pub fn is_key_down(&self, key: Key) -> (r: bool)
        ensures
            r == self.down.has(key),
    {
        self.down.contains(key)
    }

    pub fn did_press_key(&self, key: Key) -> (r: bool)
        ensures
            r == self.pressed.has(key),
    {
        self.pressed.contains(key)
    }
}

/// The direction held on the arrow keys: one of them alone, or none when
/// both or neither are held.
pub open spec fn hkey_of(left: bool, right: bool) -> Option<HKey> {
    if left && !right {
        Some(HKey::Left)
    } else if right && !left {
        Some(HKey::Right)
    } else {
        None
    }
}

pub trait InputStateExt {
    fn hkey(&self) -> Option<HKey>;
}

impl InputStateExt for Input {
    fn hkey(&self) -> (r: Option<HKey>)
        ensures
            r == hkey_of(self.down.left, self.down.right),
    {
        let left = self.is_key_down(Key::Left);
        let right = self.is_key_down(Key::Right);
        match (left, right) {
            (true, false) => Some(HKey::Left),
            (false, true) => Some(HKey::Right),
            _ => None,
        }
    }
}

} // verus!
