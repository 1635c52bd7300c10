use std::collections::HashSet;
use vstd::prelude::*;
use vstd::std_specs::hash::group_hash_axioms;

verus! {

broadcast use group_hash_axioms;

/// Identifies a physical key: the platform's scancode for it, except for Escape, which has a
/// code of its own.
pub type KeyCode = u32;

/// The Escape key, which asks the application to quit. No platform scancode takes this value.
pub const ESCAPE: KeyCode = 0xFFFF_FFFF;

/// Whether a key went down or up.
#[derive(Debug, Clone, Copy, PartialEq, Eq, Structural)]
pub enum ElementState {
    Pressed,
    Released,
}

/// One keyboard event as the windowing backend reports it.
#[derive(Debug, Clone, Copy, PartialEq, Eq, Structural)]
pub struct KeyEvent {
    pub code: KeyCode,
    pub state: ElementState,
    /// Set when the event comes from the key being held down, not from a new press.
    pub repeat: bool,
}

/// What a [`Keyboard`] holds.
pub struct KeyboardView {
    /// Keys currently held down.
    pub pressed: Set<KeyCode>,
    /// Keys that had an event since the last frame boundary.
    pub timestep_pressed: Set<KeyCode>,
}

impl KeyboardView {
    /// The keyboard after `event`: a press or a release that is not a repeat changes the set of
    /// held keys, and every event marks its key for the current timestep.
    pub open spec fn handle(self, event: KeyEvent) -> KeyboardView {
        let pressed = if event.repeat {
            self.pressed
        } else {
            match event.state {
                ElementState::Pressed => self.pressed.insert(event.code),
                ElementState::Released => self.pressed.remove(event.code),
            }
        };
        KeyboardView { pressed, timestep_pressed: self.timestep_pressed.insert(event.code) }
    }
}

/// Keyboard state: the keys held down, and the keys seen during the current timestep.
pub struct Keyboard {
    pressed_keys: HashSet<KeyCode>,
    timestep_pressed_keys: HashSet<KeyCode>,
}

impl View for Keyboard {
    type V = KeyboardView;

    closed spec fn view(&self) -> KeyboardView {
        KeyboardView { pressed: self.pressed_keys@, timestep_pressed: self.timestep_pressed_keys@ }
    }
}

impl Keyboard {
    /// A keyboard with no key down.
    pub fn new() -> (k: Keyboard)
        ensures
            k@.pressed == Set::<KeyCode>::empty(),
            k@.timestep_pressed == Set::<KeyCode>::empty(),
    {
        Keyboard { pressed_keys: HashSet::new(), timestep_pressed_keys: HashSet::new() }
    }

    /// Records one key event.
    pub fn handle_input(&mut self, event: &KeyEvent)
        ensures
            final(self)@ == old(self)@.handle(*event),
    {
        if !event.repeat {
            match event.state {
                ElementState::Pressed => {
                    self.pressed_keys.insert(event.code);
                },
                ElementState::Released => {
                    self.pressed_keys.remove(&event.code);
                },
            }
        }
        self.timestep_pressed_keys.insert(event.code);
    }

    /// Whether the key is currently held down, regardless of timestep.
    /// See [`Keyboard::timestep_is_pressed`] and [`Keyboard::reset_timestep`] for the keys of a
    /// timestep.
    pub fn is_pressed(&self, code: &KeyCode) -> (r: bool)
        ensures
            r == self@.pressed.contains(*code),
    {
        self.pressed_keys.contains(code)
    }

    /// Starts a new timestep: no key has had an event in it yet.
    pub fn reset_timestep(&mut self)
        ensures
            final(self)@.pressed == old(self)@.pressed,
            final(self)@.timestep_pressed == Set::<KeyCode>::empty(),
    {
        self.timestep_pressed_keys = HashSet::new();
    }

    /// Whether the key had an event in the current timestep.
    /// See [`Keyboard::is_pressed`] for the keys held down now.
    pub fn timestep_is_pressed(&self, code: &KeyCode) -> (r: bool)
        ensures
            r == self@.timestep_pressed.contains(*code),
    {
        self.timestep_pressed_keys.contains(code)
    }
}

} // verus!
