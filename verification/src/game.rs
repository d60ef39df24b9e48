//! The session's input-mode switch: events are routed either to the world
//! or to the overlay, and holding the left control key selects the overlay.
//! The shell performs the dispatch; the decision lives here.

use vstd::prelude::*;
use crate::input::{ElementState, Event, VirtualKeyCode};

verus! {

/// Which consumer the event stream currently feeds.
#[derive(Clone, Copy, PartialEq, Eq, Structural, Debug)]
pub enum GameState {
    World,
    Interface,
}

/// The mode after one event: pressing left control routes input to the
/// overlay, releasing it routes input back to the world, and every other
/// event leaves the mode alone.
pub open spec fn next_state(s: GameState, e: Event) -> GameState {
    match e {
        Event::KeyboardInput(ElementState::Pressed, VirtualKeyCode::LControl) => {
            GameState::Interface
        },
        Event::KeyboardInput(ElementState::Released, VirtualKeyCode::LControl) => {
            GameState::World
        },
        _ => s,
    }
}

/// The control-key transitions themselves are never forwarded; everything
/// else goes to whichever consumer the mode names.
pub open spec fn forwards(e: Event) -> bool {
    !(e matches Event::KeyboardInput(_, VirtualKeyCode::LControl))
}

impl GameState {
    pub fn next(self, event: &Event) -> (r: GameState)
        ensures
            r == next_state(self, *event),
    {
        match *event {
            Event::KeyboardInput(ElementState::Pressed, VirtualKeyCode::LControl) => {
                GameState::Interface
            },
            Event::KeyboardInput(ElementState::Released, VirtualKeyCode::LControl) => {
                GameState::World
            },
            _ => self,
        }
    }

    /// Whether an event should be handed on at all, rather than consumed by
    /// the mode switch itself.
    pub fn should_forward(self, event: &Event) -> (r: bool)
        ensures
            r == forwards(*event),
    {
        match *event {
            Event::KeyboardInput(_, VirtualKeyCode::LControl) => false,
            _ => true,
        }
    }
}

} // verus!
