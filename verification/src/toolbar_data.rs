//! The state of the toolbar: one flag per navigation command and one
//! [`ThemedButtonState`] per button.

use vstd::prelude::*;

use crate::button_data::ThemedButtonState;

verus! {

/// The state of the toolbar.
#[derive(Clone, Copy, Debug, PartialEq, Eq, Structural)]
pub struct ToolbarState {
    pub go_left: bool,
    pub go_right: bool,
    pub recenter: bool,
    pub rotate_left_event: bool,
    pub rotate_right_event: bool,
    pub fullscreen_button: ThemedButtonState,
    pub next_button: ThemedButtonState,
    pub prev_button: ThemedButtonState,
    pub rotate_right_button: ThemedButtonState,
    pub rotate_left_button: ThemedButtonState,
    pub delete_button: ThemedButtonState,
    pub recenter_button: ThemedButtonState,
    pub zoom_button: ThemedButtonState,
    pub dark_theme_enabled: bool,
}

impl ToolbarState {
    /// A fresh toolbar: no command flag raised, every button in its
    /// fresh state, with the given theme.
    pub fn new(dark_theme_enabled: bool) -> (r: ToolbarState)
        ensures
            !r.go_left,
            !r.go_right,
            !r.recenter,
            !r.rotate_left_event,
            !r.rotate_right_event,
            r.dark_theme_enabled == dark_theme_enabled,
            !r.fullscreen_button.event && !r.fullscreen_button.pressed,
            !r.next_button.event && !r.next_button.pressed,
            !r.prev_button.event && !r.prev_button.pressed,
            !r.rotate_right_button.event && !r.rotate_right_button.pressed,
            !r.rotate_left_button.event && !r.rotate_left_button.pressed,
            !r.delete_button.event && !r.delete_button.pressed,
            !r.recenter_button.event && !r.recenter_button.pressed,
            !r.zoom_button.event && !r.zoom_button.pressed,
    {
        ToolbarState {
            go_left: false,
            go_right: false,
            recenter: false,
            rotate_left_event: false,
            rotate_right_event: false,
            fullscreen_button: ThemedButtonState::new(),
            next_button: ThemedButtonState::new(),
            prev_button: ThemedButtonState::new(),
            rotate_right_button: ThemedButtonState::new(),
            rotate_left_button: ThemedButtonState::new(),
            delete_button: ThemedButtonState::new(),
            recenter_button: ThemedButtonState::new(),
            zoom_button: ThemedButtonState::new(),
            dark_theme_enabled,
        }
    }

    /// Whether a move to the previous image was requested.
    pub fn get_left(&self) -> (r: bool)
        ensures
            r == self.go_left,
    {
        self.go_left
    }

    /// Raises or clears the previous-image request.
    pub fn set_left(&mut self, state: bool)
        ensures
            *final(self) == (ToolbarState { go_left: state, ..*old(self) }),
    {
        self.go_left = state;
    }

    /// Whether a move to the next image was requested.
    pub fn get_right(&self) -> (r: bool)
        ensures
            r == self.go_right,
    {
        self.go_right
    }

    /// Raises or clears the next-image request.
    pub fn set_right(&mut self, state: bool)
        ensures
            *final(self) == (ToolbarState { go_right: state, ..*old(self) }),
    {
        self.go_right = state;
    }

    /// Whether a recenter was requested.
    pub fn get_recenter(&self) -> (r: bool)
        ensures
            r == self.recenter,
    {
        self.recenter
    }

    /// Raises or clears the recenter request.
    pub fn set_recenter(&mut self, state: bool)
        ensures
            *final(self) == (ToolbarState { recenter: state, ..*old(self) }),
    {
        self.recenter = state;
    }

    /// Whether a left rotation was requested.
    pub fn get_rotate_left(&self) -> (r: bool)
        ensures
            r == self.rotate_left_event,
    {
        self.rotate_left_event
    }

    /// Raises or clears the left-rotation request.
    pub fn set_rotate_left(&mut self, state: bool)
        ensures
            *final(self) == (ToolbarState { rotate_left_event: state, ..*old(self) }),
    {
        self.rotate_left_event = state;
    }

    /// Whether a right rotation was requested.
    pub fn get_rotate_right(&self) -> (r: bool)
        ensures
            r == self.rotate_right_event,
    {
        self.rotate_right_event
    }

    /// Raises or clears the right-rotation request.
    pub fn set_rotate_right(&mut self, state: bool)
        ensures
            *final(self) == (ToolbarState { rotate_right_event: state, ..*old(self) }),
    {
        self.rotate_right_event = state;
    }
}

} // verus!
