//! How the application reacts to gesture events with its overlay indicator.

use vstd::prelude::*;
use crate::event::{EventView, MouseEvent};
use crate::icon::{IconBounds, IconRect};
use crate::mouse_service::{MouseService, ServiceModel};

verus! {

/// Width and height of the overlay indicator.
pub const ICON_SIZE: i32 = 24;

/// How far right of the pointer the indicator is placed.
pub const ICON_OFFSET_X: i64 = 5;

/// How far above the pointer the indicator is placed.
pub const ICON_OFFSET_Y: i64 = 5;

/// A request to show the overlay indicator for `text` at `(x, y)`.
#[derive(Debug, PartialEq, Eq)]
pub struct IconRequest {
    pub text: String,
    pub x: i64,
    pub y: i64,
}

/// What the application does about a gesture event.
#[derive(Debug, PartialEq, Eq)]
pub enum Reaction {
    /// Show the overlay indicator.
    ShowIcon(IconRequest),
    /// Hide the overlay indicator.
    HideIcon,
    /// Nothing.
    Ignore,
}

/// The content of a [`Reaction`].
pub enum ReactionView {
    ShowIcon { text: Seq<char>, x: int, y: int },
    HideIcon,
    Ignore,
}

impl View for Reaction {
    type V = ReactionView;

    open spec fn view(&self) -> ReactionView {
        match self {
            Reaction::ShowIcon(request) => ReactionView::ShowIcon {
                text: request.text@,
                x: request.x as int,
                y: request.y as int,
            },
            Reaction::HideIcon => ReactionView::HideIcon,
            Reaction::Ignore => ReactionView::Ignore,
        }
    }
}

/// The reaction to `event` while the pointer is at `pointer`: selected text
/// calls for the indicator a little to the right of and above the pointer, a
/// click outside the indicator hides it, and nothing else matters.
pub open spec fn reaction_to(event: EventView, pointer: (i32, i32)) -> ReactionView {
    match event {
        EventView::TextSelected(text) => ReactionView::ShowIcon {
            text,
            x: pointer.0 + ICON_OFFSET_X,
            y: pointer.1 - ICON_OFFSET_Y,
        },
        EventView::ClickOutsideIcon(_, _) => ReactionView::HideIcon,
        _ => ReactionView::Ignore,
    }
}

/// Decides what the application does about `event`, the pointer being at
/// `pointer` when the event is handled.
pub fn react(event: MouseEvent, pointer: (i32, i32)) -> (reaction: Reaction)
    ensures
        reaction@ == reaction_to(event@, pointer),
{
    match event {
        MouseEvent::TextSelected(text) => Reaction::ShowIcon(
            IconRequest {
                text,
                x: pointer.0 as i64 + ICON_OFFSET_X,
                y: pointer.1 as i64 - ICON_OFFSET_Y,
            },
        ),
        MouseEvent::ClickOutsideIcon(_, _) => Reaction::HideIcon,
        _ => Reaction::Ignore,
    }
}

/// The rectangle of an indicator shown at `(x, y)`; coordinates beyond the
/// range of a screen coordinate wrap around.
pub open spec fn icon_rect_at(x: i64, y: i64) -> IconRect {
    IconRect { x: x as i32, y: y as i32, width: ICON_SIZE, height: ICON_SIZE }
}

/// Works out the rectangle of an indicator shown at `(x, y)`.
pub fn icon_rect_of(x: i64, y: i64) -> (rect: IconRect)
    ensures
        rect == icon_rect_at(x, y),
{
    IconRect {
        x: #[verifier::truncate]
        (x as i32),
        y: #[verifier::truncate]
        (y as i32),
        width: ICON_SIZE,
        height: ICON_SIZE,
    }
}

/// Tells the service that the indicator is now shown at `(x, y)`: its
/// rectangle is recorded and it counts as visible.
pub fn icon_shown(service: &mut MouseService, x: i64, y: i64)
    ensures
        final(service)@ == (ServiceModel {
            icon: IconBounds { rect: Some(icon_rect_at(x, y)), visible: true },
            ..old(service)@
        }),
{
    let rect = icon_rect_of(x, y);
    service.set_selection_icon_bounds(rect.x, rect.y, rect.width, rect.height);
    service.set_selection_icon_visible(true);
}

/// Tells the service whether the indicator is still shown after an attempt
/// to hide it: it counts as hidden only if the attempt succeeded.
pub fn icon_hidden(service: &mut MouseService, hidden: bool)
    ensures
        final(service)@ == (ServiceModel {
            icon: IconBounds {
                rect: old(service)@.icon.rect,
                visible: old(service)@.icon.visible && !hidden,
            },
            ..old(service)@
        }),
{
    if hidden {
        service.set_selection_icon_visible(false);
    }
}

} // verus!
