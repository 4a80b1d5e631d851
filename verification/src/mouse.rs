//! Raw pointer state as the host input layer hands it over: buttons,
//! actions, positions and per-frame movement deltas in fixed point.

use vstd::prelude::*;

verus! {

#[allow(non_camel_case_types)]
#[derive(Default, Debug)]
pub enum MouseButton {
    #[default]
    RIGHT,
    LEFT,
    MIDDLE,
}

#[allow(non_camel_case_types)]
#[derive(Default, Debug, PartialEq, Eq, Structural)]
pub enum MouseAction {
    CLICKED,
    RELEASED,
    #[default]
    NO_ACTION,
}

/// How far the pointer moved this frame, in millionths of a pixel.
#[derive(Default, Debug)]
pub struct MovementDelta {
    pub x: i64,
    pub y: i64,
}

impl MovementDelta {
    pub fn new(x: i64, y: i64) -> (r: Self)
        ensures
            r.x == x,
            r.y == y,
    {
        MovementDelta { x, y }
    }

    pub fn x(&self) -> (r: i64)
        ensures
            r == self.x,
    {
        self.x
    }

    pub fn y(&self) -> (r: i64)
        ensures
            r == self.y,
    {
        self.y
    }
}

/// Where the pointer sits, in millionths of a pixel.
#[derive(Default, Debug, Clone)]
pub struct MousePosition {
    pub x: i64,
    pub y: i64,
}

impl MousePosition {
    pub fn new(x: i64, y: i64) -> (r: Self)
        ensures
            r.x == x,
            r.y == y,
    {
        MousePosition { x, y }
    }

    pub fn x(&self) -> (r: i64)
        ensures
            r == self.x,
    {
        self.x
    }

    pub fn y(&self) -> (r: i64)
        ensures
            r == self.y,
    {
        self.y
    }
}

/// Which button did what.
#[derive(Default, Debug)]
pub struct MouseState {
    pub button: MouseButton,
    pub action: MouseAction,
}

impl MouseState {
    pub fn new(button: MouseButton, action: MouseAction) -> (r: Self)
        ensures
            r.button == button,
            r.action == action,
    {
        MouseState { button, action }
    }

    pub fn get_button(&self) -> (r: &MouseButton)
        ensures
            r == self.button,
    {
        &self.button
    }

    pub fn get_action(&self) -> (r: &MouseAction)
        ensures
            r == self.action,
    {
        &self.action
    }
}

/// One frame's worth of pointer news.
#[derive(Default, Debug)]
pub struct MouseDelta {
    pub delta_position: MovementDelta,
    pub state: MouseState,
    pub is_mouse_on_window: bool,
    pub position: MousePosition,
}

impl MouseDelta {
    pub fn set_is_mouse_on_window(&mut self, val: bool)
        ensures
            final(self).is_mouse_on_window == val,
            final(self).delta_position == old(self).delta_position,
            final(self).state == old(self).state,
            final(self).position == old(self).position,
    {
        self.is_mouse_on_window = val;
    }

    pub fn is_mouse_on_window(&self) -> (r: bool)
        ensures
            r == self.is_mouse_on_window,
    {
        self.is_mouse_on_window
    }
}

} // verus!
