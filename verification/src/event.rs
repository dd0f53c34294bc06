//! The events handed to the application's handler.

use vstd::prelude::*;

verus! {

/// A classified gesture event: the only output the application observes.
#[derive(Debug, PartialEq, Eq)]
pub enum MouseEvent {
    /// Some button went down.
    ButtonPressed(()),
    /// Some button came up.
    ButtonReleased(()),
    /// The pointer moved while the selection button was held.
    Move(()),
    /// New text was selected by a double-click or a drag.
    TextSelected(String),
    /// The selection button went down at `(x, y)`, away from the shown
    /// overlay indicator.
    ClickOutsideIcon(i32, i32),
}

/// The mathematical content of a [`MouseEvent`].
pub enum EventView {
    ButtonPressed,
    ButtonReleased,
    Move,
    TextSelected(Seq<char>),
    ClickOutsideIcon(i32, i32),
}

impl View for MouseEvent {
    type V = EventView;

    open spec fn view(&self) -> EventView {
        match self {
            MouseEvent::ButtonPressed(_) => EventView::ButtonPressed,
            MouseEvent::ButtonReleased(_) => EventView::ButtonReleased,
            MouseEvent::Move(_) => EventView::Move,
            MouseEvent::TextSelected(text) => EventView::TextSelected(text@),
            MouseEvent::ClickOutsideIcon(x, y) => EventView::ClickOutsideIcon(*x, *y),
        }
    }
}

impl Clone for MouseEvent {
    fn clone(&self) -> (copy: MouseEvent)
        ensures
            copy@ == self@,
    {
        match self {
            MouseEvent::ButtonPressed(_) => MouseEvent::ButtonPressed(()),
            MouseEvent::ButtonReleased(_) => MouseEvent::ButtonReleased(()),
            MouseEvent::Move(_) => MouseEvent::Move(()),
            MouseEvent::TextSelected(text) => MouseEvent::TextSelected(text.clone()),
            MouseEvent::ClickOutsideIcon(x, y) => MouseEvent::ClickOutsideIcon(*x, *y),
        }
    }
}

/// The contents of a list of events, in order.
pub open spec fn event_views(events: Seq<MouseEvent>) -> Seq<EventView> {
    events.map_values(|e: MouseEvent| e@)
}

/// How many announcements of selected text a list of events holds.
pub open spec fn count_text_selected(events: Seq<EventView>) -> nat
    decreases events.len(),
{
    if events.len() == 0 {
        0
    } else {
        let rest = count_text_selected(events.drop_last());
        if events.last() is TextSelected {
            rest + 1
        } else {
            rest
        }
    }
}

} // verus!
