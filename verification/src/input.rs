//! The abstract input event stream the core consumes: pointer motion and
//! buttons, key transitions, wheel steps and the close request.  An outer
//! shell translates whatever windowing events it receives into these.

use vstd::prelude::*;

verus! {

#[derive(Clone, Copy, PartialEq, Eq, Structural, Debug)]
pub enum ElementState {
    Pressed,
    Released,
}

#[derive(Clone, Copy, PartialEq, Eq, Structural, Debug)]
pub enum VirtualKeyCode {
    W,
    A,
    S,
    D,
    C,
    M,
    V,
    F5,
    F6,
    LControl,
    Other,
}

#[derive(Clone, Copy, PartialEq, Eq, Structural, Debug)]
pub enum MouseButton {
    Left,
    Right,
    Other,
}

/// Pointer coordinates arrive in fixed-point screen units.
#[derive(Clone, Copy, PartialEq, Eq, Structural, Debug)]
pub enum Event {
    KeyboardInput(ElementState, VirtualKeyCode),
    MouseMoved(i64, i64),
    MouseInput(ElementState, MouseButton),
    MouseWheel(i64),
    Closed,
}

} // verus!
