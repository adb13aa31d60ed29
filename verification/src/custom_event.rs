//! The event model.
//!
//! `UiEvent` is the per-tick platform event handed down the component tree:
//! pointer motion (already in logical units), button transitions, character
//! input, and the close request. `CustomEvent` is the user-event channel
//! components may post back to the driving loop, addressing windows by id.

use vstd::prelude::*;

use crate::component::Vec2;
use crate::desktop::window_manager::WindowId;

verus! {

/// One platform event per frame tick.
#[derive(Clone, Copy, PartialEq, Eq, Structural, Debug)]
pub enum UiEvent {
    /// The pointer moved to this logical position.
    PointerMoved(Vec2),
    /// The primary pointer button was pressed.
    PointerPressed,
    /// The primary pointer button was released.
    PointerReleased,
    /// A character was typed.
    CharacterInput(char),
    /// The surface was asked to close.
    CloseRequested,
}

/// An event posted by a component for the driving loop.
#[derive(Clone, Copy, PartialEq, Eq, Structural, Debug)]
pub enum CustomEvent {
    WindowEvent(WindowEvent),
}

/// A request addressed to one window.
#[derive(Clone, Copy, PartialEq, Eq, Structural, Debug)]
pub enum WindowEvent {
    Close(WindowId),
    Show(WindowId),
    Hide(WindowId),
}

} // verus!
