//! Keyboard state and edge detection.
//!
//! A key is "just pressed" in the frame in which it is down and was up in
//! the frame before. The two frames are kept side by side and compared.

use vstd::prelude::*;

verus! {

/// The keys the game listens to.
#[derive(Clone, Copy, Debug, PartialEq, Eq, Structural)]
pub enum KeyCode {
    /// Move left.
    KeyA,
    /// Move right.
    KeyD,
    /// Fire.
    Space,
    /// Held while the vsync key is struck.
    ControlLeft,
    /// Struck, with the modifier held, to switch vsync.
    AltLeft,
    /// Switch the overlay's colour.
    Digit1,
    /// Shrink the overlay's font.
    Digit2,
    /// Enlarge the overlay's font.
    Digit3,
    /// Show or hide the overlay.
    Digit4,
}

/// Which keys are down at one instant.
#[derive(Clone, Copy, Debug, PartialEq, Eq, Structural)]
pub struct Keys {
    pub key_a: bool,
    pub key_d: bool,
    pub space: bool,
    pub control_left: bool,
    pub alt_left: bool,
    pub digit1: bool,
    pub digit2: bool,
    pub digit3: bool,
    pub digit4: bool,
}

impl Keys {
    /// Whether `key` is down.
    pub open spec fn holds(self, key: KeyCode) -> bool {
        match key {
            KeyCode::KeyA => self.key_a,
            KeyCode::KeyD => self.key_d,
            KeyCode::Space => self.space,
            KeyCode::ControlLeft => self.control_left,
            KeyCode::AltLeft => self.alt_left,
            KeyCode::Digit1 => self.digit1,
            KeyCode::Digit2 => self.digit2,
            KeyCode::Digit3 => self.digit3,
            KeyCode::Digit4 => self.digit4,
        }
    }

    /// `self` with `key` set to `down` and every other key as it was.
    pub open spec fn set(self, key: KeyCode, down: bool) -> Keys {
        match key {
            KeyCode::KeyA => Keys { key_a: down, ..self },
            KeyCode::KeyD => Keys { key_d: down, ..self },
            KeyCode::Space => Keys { space: down, ..self },
            KeyCode::ControlLeft => Keys { control_left: down, ..self },
            KeyCode::AltLeft => Keys { alt_left: down, ..self },
            KeyCode::Digit1 => Keys { digit1: down, ..self },
            KeyCode::Digit2 => Keys { digit2: down, ..self },
            KeyCode::Digit3 => Keys { digit3: down, ..self },
            KeyCode::Digit4 => Keys { digit4: down, ..self },
        }
    }

    /// No key down.
    pub open spec fn released() -> Keys {
        Keys {
            key_a: false,
            key_d: false,
            space: false,
            control_left: false,
            alt_left: false,
            digit1: false,
            digit2: false,
            digit3: false,
            digit4: false,
        }
    }

    /// A keyboard with no key down.
    pub fn none() -> (keys: Keys)
        ensures
            keys == Keys::released(),
    {
        Keys {
            key_a: false,
            key_d: false,
            space: false,
            control_left: false,
            alt_left: false,
            digit1: false,
            digit2: false,
            digit3: false,
            digit4: false,
        }
    }

    /// Tests whether `key` is down.
    pub fn contains(&self, key: KeyCode) -> (down: bool)
        ensures
            down == self.holds(key),
    {
        match key {
            KeyCode::KeyA => self.key_a,
            KeyCode::KeyD => self.key_d,
            KeyCode::Space => self.space,
            KeyCode::ControlLeft => self.control_left,
            KeyCode::AltLeft => self.alt_left,
            KeyCode::Digit1 => self.digit1,
            KeyCode::Digit2 => self.digit2,
            KeyCode::Digit3 => self.digit3,
            KeyCode::Digit4 => self.digit4,
        }
    }

    /// The same keyboard with `key` down.
    pub fn with(self, key: KeyCode) -> (keys: Keys)
        ensures
            keys == self.set(key, true),
            keys.holds(key),
            forall|other: KeyCode| other != key ==> keys.holds(other) == self.holds(other),
    {
        let mut keys = self;
        match key {
            KeyCode::KeyA => { keys.key_a = true; },
            KeyCode::KeyD => { keys.key_d = true; },
            KeyCode::Space => { keys.space = true; },
            KeyCode::ControlLeft => { keys.control_left = true; },
            KeyCode::AltLeft => { keys.alt_left = true; },
            KeyCode::Digit1 => { keys.digit1 = true; },
            KeyCode::Digit2 => { keys.digit2 = true; },
            KeyCode::Digit3 => { keys.digit3 = true; },
            KeyCode::Digit4 => { keys.digit4 = true; },
        }
        keys
    }
}

/// The keyboard over two consecutive frames.
#[derive(Clone, Copy, Debug, PartialEq, Eq, Structural)]
pub struct ButtonInput {
    /// The keys that were down in the frame before.
    pub previous: Keys,
    /// The keys that are down in this frame.
    pub current: Keys,
}

impl ButtonInput {
    /// Whether `key` is down in this frame.
    pub open spec fn spec_pressed(&self, key: KeyCode) -> bool {
        self.current.holds(key)
    }

    /// Whether `key` went down in this frame: down now, up the frame before.
    pub open spec fn spec_just_pressed(&self, key: KeyCode) -> bool {
        self.current.holds(key) && !self.previous.holds(key)
    }

    /// The input of the next frame, in which the keys `now` are down.
    pub open spec fn next(self, now: Keys) -> ButtonInput {
        ButtonInput { previous: self.current, current: now }
    }

    /// The input before the first frame: nothing is down, nothing was.
    pub fn new() -> (input: ButtonInput)
        ensures
            input.previous == Keys::released(),
            input.current == Keys::released(),
    {
        ButtonInput { previous: Keys::none(), current: Keys::none() }
    }

    /// Tests whether `key` is down in this frame.
    #[verifier::when_used_as_spec(spec_pressed)]
    pub fn pressed(&self, key: KeyCode) -> (down: bool)
        ensures
            down == self.spec_pressed(key),
    {
        self.current.contains(key)
    }

    /// Tests whether `key` went down in this frame.
    #[verifier::when_used_as_spec(spec_just_pressed)]
    pub fn just_pressed(&self, key: KeyCode) -> (edge: bool)
        ensures
            edge == self.spec_just_pressed(key),
    {
        self.current.contains(key) && !self.previous.contains(key)
    }

    /// Moves on to the next frame, in which the keys `now` are down.
    pub fn advance(&mut self, now: Keys)
        ensures
            *final(self) == old(self).next(now),
    {
        self.previous = self.current;
        self.current = now;
    }
}

} // verus!
