//! The state of one themed toolbar button: whether it is pressed, and
//! whether it has an event waiting to be handled.

use vstd::prelude::*;

verus! {

/// The state of one themed toolbar button.
#[derive(Clone, Copy, Debug, PartialEq, Eq, Structural)]
pub struct ThemedButtonState {
    pub event: bool,
    pub pressed: bool,
    pub hot: bool,
}

impl ThemedButtonState {
    /// A fresh button: not pressed, not hot, no event waiting.
    pub fn new() -> (r: ThemedButtonState)
        ensures
            !r.event,
            !r.pressed,
            !r.hot,
    {
        ThemedButtonState { event: false, pressed: false, hot: false }
    }

    /// Whether the button is currently pressed.
    pub fn is_pressed(&self) -> (r: bool)
        ensures
            r == self.pressed,
    {
        self.pressed
    }

    /// Sets the pressed state, leaving the rest untouched.
    pub fn set_pressed(&mut self, state: bool)
        ensures
            final(self).pressed == state,
            final(self).event == old(self).event,
            final(self).hot == old(self).hot,
    {
        self.pressed = state;
    }

    /// Raises the button's event flag.
    pub fn fire_event(&mut self)
        ensures
            final(self).event,
            final(self).pressed == old(self).pressed,
            final(self).hot == old(self).hot,
    {
        self.event = true;
    }

    /// Clears the button's event flag.
    pub fn clear_event(&mut self)
        ensures
            !final(self).event,
            final(self).pressed == old(self).pressed,
            final(self).hot == old(self).hot,
    {
        self.event = false;
    }

    /// Whether an event is waiting to be handled.
    pub fn has_event(&self) -> (r: bool)
        ensures
            r == self.event,
    {
        self.event
    }
}

} // verus!
