//! The small window that follows the pointer and shows the colour under
//! it.

use vstd::prelude::*;

verus! {

pub const PREVIEW_WIDTH: u16 = 32;

pub const PREVIEW_HEIGHT: u16 = 32;

pub const PREVIEW_OFFSET_X: i16 = 10;

pub const PREVIEW_OFFSET_Y: i16 = 10;

/// What the display server reports to the preview window.
#[derive(Clone, Copy, Debug, PartialEq, Eq, Structural)]
pub enum PreviewEvent {
    Expose,
    Motion { x: i16, y: i16 },
    Other,
}

/// What the preview window does about an event.
#[derive(Clone, Copy, Debug, PartialEq, Eq, Structural)]
pub enum PreviewAction {
    Redraw,
    /// Take the colour at this place, move there and draw.
    Follow { x: i16, y: i16 },
    /// The event is not for the preview.
    Pass,
}

/// What the display server reports while the user picks a place with the
/// crosshair.
#[derive(Clone, Copy, Debug, PartialEq, Eq, Structural)]
pub enum CrosshairEvent {
    ButtonPress { x: i16, y: i16 },
    Expose,
    Motion { x: i16, y: i16 },
    Other,
    /// The connection is gone.
    Closed,
}

/// What to do about an event while the user picks a place.
#[derive(Clone, Copy, Debug, PartialEq, Eq, Structural)]
pub enum CrosshairAction {
    /// The user has picked this place.
    Pick { x: i16, y: i16 },
    Redraw,
    /// Take the colour at this place, move the preview there and draw.
    Follow { x: i16, y: i16 },
    /// Stop without a place.
    Stop,
}

pub open spec fn crosshair_action_for(event: CrosshairEvent) -> CrosshairAction {
    match event {
        CrosshairEvent::ButtonPress { x, y } => CrosshairAction::Pick { x, y },
        CrosshairEvent::Expose => CrosshairAction::Redraw,
        CrosshairEvent::Motion { x, y } => CrosshairAction::Follow { x, y },
        CrosshairEvent::Other => CrosshairAction::Stop,
        CrosshairEvent::Closed => CrosshairAction::Stop,
    }
}

/// What to do about `event`: any button picks, the preview is kept up to
/// date, and anything unexpected ends the choice.
pub fn crosshair_action(event: CrosshairEvent) -> (action: CrosshairAction)
    ensures
        action == crosshair_action_for(event),
{
    match event {
        CrosshairEvent::ButtonPress { x, y } => CrosshairAction::Pick { x, y },
        CrosshairEvent::Expose => CrosshairAction::Redraw,
        CrosshairEvent::Motion { x, y } => CrosshairAction::Follow { x, y },
        CrosshairEvent::Other => CrosshairAction::Stop,
        CrosshairEvent::Closed => CrosshairAction::Stop,
    }
}

pub open spec fn preview_action_for(event: PreviewEvent) -> PreviewAction {
    match event {
        PreviewEvent::Expose => PreviewAction::Redraw,
        PreviewEvent::Motion { x, y } => PreviewAction::Follow { x, y },
        PreviewEvent::Other => PreviewAction::Pass,
    }
}

/// Where the preview window goes when the pointer is at (`x`, `y`): a
/// little below and to the right of it.
pub open spec fn position_for(x: int, y: int) -> (int, int) {
    (x + PREVIEW_OFFSET_X, y + PREVIEW_OFFSET_Y)
}

pub fn preview_position(pointer: (i16, i16)) -> (position: (i16, i16))
    requires
        pointer.0 + PREVIEW_OFFSET_X <= i16::MAX,
        pointer.1 + PREVIEW_OFFSET_Y <= i16::MAX,
    ensures
        (position.0 as int, position.1 as int) == position_for(pointer.0 as int, pointer.1 as int),
{
    (pointer.0 + PREVIEW_OFFSET_X, pointer.1 + PREVIEW_OFFSET_Y)
}

/// What to do about `event`.
pub fn preview_action(event: PreviewEvent) -> (action: PreviewAction)
    ensures
        action == preview_action_for(event),
{
    match event {
        PreviewEvent::Expose => PreviewAction::Redraw,
        PreviewEvent::Motion { x, y } => PreviewAction::Follow { x, y },
        PreviewEvent::Other => PreviewAction::Pass,
    }
}

impl PreviewAction {
    pub open spec fn spec_handled(self) -> bool {
        !(self is Pass)
    }

    /// Whether the event was one for the preview.
    pub fn handled(&self) -> (handled: bool)
        ensures
            handled == self.spec_handled(),
    {
        match self {
            PreviewAction::Pass => false,
            _ => true,
        }
    }
}

} // verus!
