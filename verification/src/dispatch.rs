//! The dispatcher's vocabulary: what the service asks of its driver and
//! which answer it is waiting for.

use vstd::prelude::*;
use crate::event::{event_views, EventView, MouseEvent};
use crate::gesture::SelectionTrigger;

verus! {

/// Which answer the service is waiting for.
#[derive(Clone, Copy, Debug, PartialEq, Eq, Structural)]
pub enum Phase {
    /// Not running: nothing is awaited.
    Stopped,
    /// The next pointer sample.
    Polling,
    /// Whether gesture-triggered extraction is enabled, asked on behalf of
    /// the given gesture.
    AwaitingEnabled(SelectionTrigger),
    /// The end of the settle delay after a drag.
    Settling,
    /// The currently selected text.
    Reading,
}

/// The one piece of outside work the driver is to do next.
#[derive(Clone, Copy, Debug, PartialEq, Eq, Structural)]
pub enum Request {
    /// Wait `delay_ms`, read the pointer and the clock, answer with
    /// `on_sample`.
    Poll { delay_ms: u64 },
    /// Read the "gesture-triggered extraction enabled" setting (disabled if
    /// it cannot be read) and the clock, answer with `on_extraction_enabled`.
    QueryExtractionEnabled,
    /// Wait `delay_ms`, read the clock, answer with `on_settled`.
    Settle { delay_ms: u64 },
    /// Read the currently selected text, answer with `on_selected_text`.
    ReadSelectedText,
    /// Leave the loop.
    Halt,
}

/// The outcome of one step: events for the handler, then the next request.
#[derive(Debug)]
pub struct Directive {
    /// Events to hand to the handler, one after the other, in this order.
    pub events: Vec<MouseEvent>,
    /// What to do once the events are delivered.
    pub next: Request,
}

/// The mathematical content of a [`Directive`].
pub struct DirectiveView {
    pub events: Seq<EventView>,
    pub next: Request,
}

impl View for Directive {
    type V = DirectiveView;

    open spec fn view(&self) -> DirectiveView {
        DirectiveView { events: event_views(self.events@), next: self.next }
    }
}

} // verus!
