//! The gesture classifier: from two consecutive pointer samples to button
//! events, drag tracking and double-click recognition.

use vstd::prelude::*;
use crate::config::GestureConfig;
use crate::event::{event_views, EventView, MouseEvent};
use crate::icon::IconBounds;
use crate::sample::{
    edge_between, transitions_between, ButtonEdge, ButtonTransition, PointerSample, SampleView,
};
use crate::timing::ClickTiming;

verus! {

/// Which gesture asks for the current selection to be read.
#[derive(Clone, Copy, Debug, PartialEq, Eq, Structural)]
pub enum SelectionTrigger {
    /// The second press of a double-click.
    DoubleClick,
    /// The release that ends a drag.
    Drag,
}

/// Where the selection button went down and whether it is still held.
#[derive(Debug)]
pub struct DragExtent {
    pub start_position: (i32, i32),
    pub is_active: bool,
}

impl DragExtent {
    /// The extent after the selection button went down at `position`.
    pub open spec fn begun(self, position: (i32, i32)) -> DragExtent {
        DragExtent { start_position: position, is_active: true }
    }

    /// The extent after the selection button came up.
    pub open spec fn ended(self) -> DragExtent {
        DragExtent { start_position: self.start_position, is_active: false }
    }

    /// Whether a release at `position` ends a drag: the pointer is not where
    /// the button went down.
    pub open spec fn dragged_to(self, position: (i32, i32)) -> bool {
        self.start_position != position
    }

    /// No button held, start at the origin.
    pub fn new() -> (extent: DragExtent)
        ensures
            extent == (DragExtent { start_position: (0i32, 0i32), is_active: false }),
    {
        DragExtent { start_position: (0, 0), is_active: false }
    }

    /// Records a press of the selection button at `position`.
    pub fn begin(&mut self, position: (i32, i32))
        ensures
            *final(self) == old(self).begun(position),
    {
        self.start_position = position;
        self.is_active = true;
    }

    /// Records a release of the selection button at `position` and tells
    /// whether the pointer moved away from where the button went down.
    pub fn finish(&mut self, position: (i32, i32)) -> (dragged: bool)
        ensures
            dragged == old(self).dragged_to(position),
            *final(self) == old(self).ended(),
    {
        self.is_active = false;
        self.start_position.0 != position.0 || self.start_position.1 != position.1
    }
}

/// The events that one button transition gives rise to. A press of the
/// selection button away from the shown indicator is reported as a click
/// outside it, just before the press itself.
pub open spec fn transition_events(
    transition: ButtonTransition,
    primary: usize,
    outside: Option<(i32, i32)>,
) -> Seq<EventView> {
    match transition.edge {
        ButtonEdge::Pressed => {
            match outside {
                Some((x, y)) if transition.button_index == primary => seq![
                    EventView::ClickOutsideIcon(x, y),
                    EventView::ButtonPressed,
                ],
                _ => seq![EventView::ButtonPressed],
            }
        },
        ButtonEdge::Released => seq![EventView::ButtonReleased],
    }
}

/// The events of a list of transitions, in the order of the transitions.
pub open spec fn events_of_transitions(
    transitions: Seq<ButtonTransition>,
    primary: usize,
    outside: Option<(i32, i32)>,
) -> Seq<EventView>
    decreases transitions.len(),
{
    if transitions.len() == 0 {
        Seq::empty()
    } else {
        events_of_transitions(transitions.drop_last(), primary, outside) + transition_events(
            transitions.last(),
            primary,
            outside,
        )
    }
}

/// The press position to report as a click outside the indicator, if any.
pub open spec fn outside_click(icon: IconBounds, position: (i32, i32)) -> Option<(i32, i32)> {
    if icon.misses(position.0 as int, position.1 as int) {
        Some(position)
    } else {
        None
    }
}

/// What one tick of classification hands to the dispatcher.
#[derive(Debug)]
pub struct Classification {
    /// The events of this tick, in the order in which to deliver them.
    pub events: Vec<MouseEvent>,
    /// The selection check to run once the events are delivered, if any.
    pub check: Option<SelectionTrigger>,
}

/// State of the selection button's click / drag / double-click machine.
#[derive(Debug)]
pub struct GestureClassifier {
    pub drag: DragExtent,
    pub click: ClickTiming,
}

impl GestureClassifier {
    /// The edge of the selection button between two button states.
    pub open spec fn primary_edge(prev: Seq<bool>, cur: Seq<bool>, config: GestureConfig) -> Option<
        ButtonEdge,
    > {
        edge_between(prev, cur, config.primary_button as int)
    }

    /// The classifier after the tick that took it from `prev` to `cur` at
    /// time `now`. A press starts a drag extent and is accounted for in the
    /// click timing; a release ends the drag extent; anything else leaves
    /// the classifier as it was.
    pub open spec fn after_tick(
        self,
        prev: SampleView,
        cur: SampleView,
        now: u64,
        config: GestureConfig,
    ) -> GestureClassifier {
        match Self::primary_edge(prev.buttons, cur.buttons, config) {
            Some(ButtonEdge::Pressed) => GestureClassifier {
                drag: self.drag.begun(cur.position),
                click: self.click.after_press(now, config.double_click_window_ms),
            },
            Some(ButtonEdge::Released) => GestureClassifier {
                drag: self.drag.ended(),
                click: self.click,
            },
            None => self,
        }
    }

    /// The selection check that the tick asks for: one after the press that
    /// completes a double-click, one after the release that ends a drag.
    pub open spec fn tick_check(
        self,
        prev: SampleView,
        cur: SampleView,
        now: u64,
        config: GestureConfig,
    ) -> Option<SelectionTrigger> {
        match Self::primary_edge(prev.buttons, cur.buttons, config) {
            Some(ButtonEdge::Pressed) => {
                if self.click.completes_double_click(now, config.double_click_window_ms) {
                    Some(SelectionTrigger::DoubleClick)
                } else {
                    None
                }
            },
            Some(ButtonEdge::Released) => {
                if self.drag.dragged_to(cur.position) {
                    Some(SelectionTrigger::Drag)
                } else {
                    None
                }
            },
            None => None,
        }
    }

    /// Whether the tick reports movement: the selection button is held once
    /// the tick's edges are accounted for, and the pointer changed place.
    pub open spec fn tick_moves(
        self,
        prev: SampleView,
        cur: SampleView,
        now: u64,
        config: GestureConfig,
    ) -> bool {
        self.after_tick(prev, cur, now, config).drag.is_active && cur.position != prev.position
    }

    /// The events of the tick in delivery order: one per button transition
    /// (presses before releases, each by ascending button id, a click outside
    /// the indicator just before the selection button's press), then the
    /// movement, if any.
    pub open spec fn tick_events(
        self,
        prev: SampleView,
        cur: SampleView,
        now: u64,
        icon: IconBounds,
        config: GestureConfig,
    ) -> Seq<EventView> {
        let edges = events_of_transitions(
            transitions_between(prev.buttons, cur.buttons),
            config.primary_button,
            outside_click(icon, cur.position),
        );
        if self.tick_moves(prev, cur, now, config) {
            edges.push(EventView::Move)
        } else {
            edges
        }
    }

    /// A classifier that has seen no press yet.
    pub fn new() -> (classifier: GestureClassifier)
        ensures
            classifier == (GestureClassifier {
                drag: DragExtent { start_position: (0i32, 0i32), is_active: false },
                click: ClickTiming { last_click_at: None },
            }),
    {
        GestureClassifier { drag: DragExtent::new(), click: ClickTiming::new() }
    }

    /// Classifies the tick that leads from `previous` to `current`, read at
    /// time `now`: updates the drag extent and the click timing, and returns
    /// the events to deliver and the selection check to run after them.
    pub fn classify(
        &mut self,
        previous: &PointerSample,
        current: &PointerSample,
        now: u64,
        icon: &IconBounds,
        config: &GestureConfig,
    ) -> (found: Classification)
        ensures
            *final(self) == old(self).after_tick(previous@, current@, now, *config),
            found.check == old(self).tick_check(previous@, current@, now, *config),
            event_views(found.events@) == old(self).tick_events(
                previous@,
                current@,
                now,
                *icon,
                *config,
            ),
    {
        let mut check: Option<SelectionTrigger> = None;
        match current.edge_since(previous, config.primary_button) {
            Some(ButtonEdge::Pressed) => {
                self.drag.begin(current.position);
                if self.click.register_press(now, config.double_click_window_ms) {
                    check = Some(SelectionTrigger::DoubleClick);
                }
            },
            Some(ButtonEdge::Released) => {
                if self.drag.finish(current.position) {
                    check = Some(SelectionTrigger::Drag);
                }
            },
            None => {},
        }
        let outside = if icon.is_click_outside(current.position.0, current.position.1) {
            Some(current.position)
        } else {
            None
        };
        let transitions = current.transitions_since(previous);
        let mut events: Vec<MouseEvent> = Vec::new();
        let mut i: usize = 0;
        while i < transitions.len()
            invariant
                i <= transitions.len(),
                outside == outside_click(*icon, current.position),
                event_views(events@) == events_of_transitions(
                    transitions@.take(i as int),
                    config.primary_button,
                    outside,
                ),
            decreases transitions.len() - i,
        {
            let transition = transitions[i];
            let ghost before = events@;
            proof {
                assert(transitions@.take(i + 1).drop_last() == transitions@.take(i as int));
                assert(transitions@.take(i + 1).last() == transition);
            }
            match transition.edge {
                ButtonEdge::Pressed => {
                    if transition.button_index == config.primary_button {
                        if let Some(at) = outside {
                            events.push(MouseEvent::ClickOutsideIcon(at.0, at.1));
                        }
                    }
                    events.push(MouseEvent::ButtonPressed(()));
                },
                ButtonEdge::Released => {
                    events.push(MouseEvent::ButtonReleased(()));
                },
            }
            assert(event_views(events@) == event_views(before) + transition_events(
                transition,
                config.primary_button,
                outside,
            ));
            i += 1;
        }
        assert(transitions@.take(transitions@.len() as int) == transitions@);
        let moved = current.position.0 != previous.position.0 || current.position.1
            != previous.position.1;
        if self.drag.is_active && moved {
            let ghost before = events@;
            events.push(MouseEvent::Move(()));
            assert(event_views(events@) == event_views(before).push(EventView::Move));
        }
        Classification { events, check }
    }
}

} // verus!
