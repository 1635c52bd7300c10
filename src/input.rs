mod keyboard;

use vstd::prelude::*;

use crate::app::{Context, Plugin};

pub use keyboard::{ElementState, KeyCode, KeyEvent, Keyboard, KeyboardView, ESCAPE};

verus! {

/// The plugin that owns a keyboard state for the application.
pub struct InputPlugin {
    keyboard: Keyboard,
}

impl View for InputPlugin {
    type V = KeyboardView;

    closed spec fn view(&self) -> KeyboardView {
        self.keyboard@
    }
}

impl InputPlugin {
    /// The plugin's keyboard state.
    pub fn keyboard(&self) -> (r: &Keyboard)
        ensures
            r@ == self@,
    {
        &self.keyboard
    }
}

impl Plugin for InputPlugin {
    fn init(&mut self, ctx: &mut Context) {
    }
}

impl Default for InputPlugin {
    fn default() -> (r: InputPlugin)
        ensures
            r@.pressed.is_empty(),
            r@.timestep_pressed.is_empty(),
    {
        InputPlugin { keyboard: Keyboard::new() }
    }
}

} // verus!
