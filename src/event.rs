//! What the host hands a widget, and what the widget reports back.

use vstd::prelude::*;

use crate::click::Button;
use crate::modifiers::Modifiers;

verus! {

/// How far a wheel scrolled: whole lines, or pixels for smooth-scrolling devices.
#[derive(Debug, Clone, Copy, PartialEq, Eq, Structural)]
pub enum ScrollDelta {
    Lines(i32),
    Pixels(i32),
}

/// An input event, in the host's pixel coordinates.
#[derive(Debug, Clone, Copy, PartialEq, Eq, Structural)]
pub enum Event {
    PointerMoved { x: i32, y: i32 },
    /// A press, stamped with the host's clock in milliseconds.
    PointerDown { x: i32, y: i32, button: Button, time_ms: u64 },
    PointerUp { button: Button },
    /// The pointer went away mid-gesture (a lost touch, a lost focus).
    PointerLost,
    WheelScrolled { delta: ScrollDelta },
    ModifiersChanged { modifiers: Modifiers },
}

/// Whether the widget used the event.
#[derive(Debug, Clone, Copy, PartialEq, Eq, Structural)]
pub enum Status {
    Captured,
    Ignored,
}

/// What one event did. The callbacks it fires run in this order: grab, then
/// change (with the widget's new value), then release. `grab` and `release`
/// are set only where the widget has that callback.
#[derive(Debug, Clone, Copy, PartialEq, Eq, Structural)]
pub struct Response {
    pub status: Status,
    pub grab: bool,
    pub change: bool,
    pub release: bool,
}

/// The response of an event that the widget does not use.
pub open spec fn ignored() -> Response {
    Response { status: Status::Ignored, grab: false, change: false, release: false }
}

/// The response of an event that the widget uses and that fires the given callbacks.
pub open spec fn captured(grab: bool, change: bool, release: bool) -> Response {
    Response { status: Status::Captured, grab, change, release }
}

impl Response {
    /// An event that the widget does not use.
    pub fn ignored() -> (r: Response)
        ensures
            r == ignored(),
    {
        Response { status: Status::Ignored, grab: false, change: false, release: false }
    }

    /// An event that the widget uses, firing the given callbacks.
    pub fn captured(grab: bool, change: bool, release: bool) -> (r: Response)
        ensures
            r == captured(grab, change, release),
    {
        Response { status: Status::Captured, grab, change, release }
    }
}

/// A widget's layout rectangle in pixels.
#[derive(Debug, Clone, Copy, PartialEq, Eq, Structural)]
pub struct Bounds {
    pub x: i32,
    pub y: i32,
    pub width: u32,
    pub height: u32,
}

} // verus!
