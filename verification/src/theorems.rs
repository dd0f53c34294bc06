//! Theorems about the service that span several steps.

use vstd::prelude::*;
use crate::dispatch::{Phase, Request};
use crate::event::{count_text_selected, EventView};
use crate::gesture::{
    events_of_transitions, outside_click, transition_events, SelectionTrigger,
};
use crate::mouse_service::{ServiceModel, Step};
use crate::sample::{
    is_down, lemma_no_transition_without_change, transitions_between, ButtonTransition, SampleView,
};

verus! {

/// Counting announcements distributes over concatenation.
pub proof fn lemma_count_text_selected_concat(a: Seq<EventView>, b: Seq<EventView>)
    ensures
        count_text_selected(a + b) == count_text_selected(a) + count_text_selected(b),
    decreases b.len(),
{
    if b.len() == 0 {
        assert(a + b == a);
    } else {
        assert((a + b).drop_last() == a + b.drop_last());
        assert((a + b).last() == b.last());
        lemma_count_text_selected_concat(a, b.drop_last());
    }
}

/// Button transitions never announce selected text.
pub proof fn lemma_transitions_announce_nothing(
    transitions: Seq<ButtonTransition>,
    primary: usize,
    outside: Option<(i32, i32)>,
)
    ensures
        count_text_selected(events_of_transitions(transitions, primary, outside)) == 0,
    decreases transitions.len(),
{
    if transitions.len() > 0 {
        let head = events_of_transitions(transitions.drop_last(), primary, outside);
        let tail = transition_events(transitions.last(), primary, outside);
        lemma_transitions_announce_nothing(transitions.drop_last(), primary, outside);
        lemma_count_text_selected_concat(head, tail);
        reveal_with_fuel(count_text_selected, 3);
    }
}

/// A pointer sample never announces selected text by itself: whatever the
/// state and the sample, the directive of `on_sample` holds no such event. An
/// announcement therefore always comes in a later directive than the press,
/// the release and the click outside the indicator that led to it.
pub proof fn lemma_samples_announce_nothing(
    state: ServiceModel,
    polled: Option<SampleView>,
    now: u64,
)
    ensures
        count_text_selected(state.on_sample(polled, now).directive.events) == 0,
{
    let cur = state.effective_sample(polled);
    let edges = events_of_transitions(
        transitions_between(state.last_sample.buttons, cur.buttons),
        state.config.primary_button,
        outside_click(state.icon, cur.position),
    );
    lemma_transitions_announce_nothing(
        transitions_between(state.last_sample.buttons, cur.buttons),
        state.config.primary_button,
        outside_click(state.icon, cur.position),
    );
    assert(edges.push(EventView::Move).drop_last() == edges);
    reveal_with_fuel(count_text_selected, 2);
}

/// The outcome of a whole selection check: the answer to "is extraction
/// enabled" arrives at `asked_at`, a settle delay (if one is called for) ends
/// at `settled_at`, and the selection (if it is read) yields `text`.
pub open spec fn selection_check(
    state: ServiceModel,
    enabled: bool,
    asked_at: u64,
    settled_at: u64,
    text: Option<Seq<char>>,
) -> Step {
    let asked = state.on_extraction_enabled(enabled, asked_at);
    let consulted = if asked.state.phase == Phase::Settling {
        asked.state.on_settled(settled_at)
    } else {
        asked
    };
    if consulted.state.phase == Phase::Reading {
        consulted.state.on_selected_text(text)
    } else {
        consulted
    }
}

/// The time at which a selection check consults the debounce guard: the end
/// of the settle delay after a drag, the arrival of the answer otherwise.
pub open spec fn consulted_at(trigger: SelectionTrigger, asked_at: u64, settled_at: u64) -> u64 {
    if trigger == SelectionTrigger::Drag {
        settled_at
    } else {
        asked_at
    }
}

/// A selection check announces exactly the newly selected text, once, when
/// extraction is enabled, the debounce guard allows it and the text read is
/// new; in every other case it announces nothing. Either way the check ends
/// the iteration.
pub proof fn lemma_selection_check_outcome(
    state: ServiceModel,
    trigger: SelectionTrigger,
    enabled: bool,
    asked_at: u64,
    settled_at: u64,
    text: Option<Seq<char>>,
)
    requires
        state.phase == Phase::AwaitingEnabled(trigger),
    ensures
        ({
            let at = consulted_at(trigger, asked_at, settled_at);
            let end = selection_check(state, enabled, asked_at, settled_at, text);
            let announced = enabled && state.debounce.permits(at) && state.is_new_selection(text);
            &&& announced ==> end.directive.events == seq![EventView::TextSelected(text->0)]
            &&& announced ==> end.state.last_text == text->0
            &&& !announced ==> end.directive.events == Seq::<EventView>::empty()
            &&& !announced ==> end.state.last_text == state.last_text
            &&& end.state.debounce == if enabled {
                state.debounce.after_request(at)
            } else {
                state.debounce
            }
            &&& end.state.phase == if state.running {
                Phase::Polling
            } else {
                Phase::Stopped
            }
            &&& end.directive.next == end.state.awaited()
            &&& end.state.classifier == state.classifier
            &&& end.state.icon == state.icon
            &&& end.state.running == state.running
            &&& end.state.config == state.config
            &&& end.state.last_sample == state.last_sample
        }),
{
}

/// Of two selection checks whose debounce consultations lie closer together
/// than the debounce interval, only the first can announce anything: the
/// second ends silently, whichever gesture asked for either of them and
/// whatever text is selected by then.
pub proof fn lemma_second_check_is_suppressed(
    first: ServiceModel,
    first_trigger: SelectionTrigger,
    first_asked_at: u64,
    first_settled_at: u64,
    first_text: Option<Seq<char>>,
    second: ServiceModel,
    second_trigger: SelectionTrigger,
    second_enabled: bool,
    second_asked_at: u64,
    second_settled_at: u64,
    second_text: Option<Seq<char>>,
)
    requires
        first.phase == Phase::AwaitingEnabled(first_trigger),
        first.debounce.permits(consulted_at(first_trigger, first_asked_at, first_settled_at)),
        second.phase == Phase::AwaitingEnabled(second_trigger),
        second.debounce == selection_check(
            first,
            true,
            first_asked_at,
            first_settled_at,
            first_text,
        ).state.debounce,
        consulted_at(first_trigger, first_asked_at, first_settled_at) <= consulted_at(
            second_trigger,
            second_asked_at,
            second_settled_at,
        ),
        consulted_at(second_trigger, second_asked_at, second_settled_at) - consulted_at(
            first_trigger,
            first_asked_at,
            first_settled_at,
        ) < first.debounce.min_interval,
    ensures
        selection_check(
            second,
            second_enabled,
            second_asked_at,
            second_settled_at,
            second_text,
        ).directive.events == Seq::<EventView>::empty(),
        selection_check(
            second,
            second_enabled,
            second_asked_at,
            second_settled_at,
            second_text,
        ).state.debounce == second.debounce,
        selection_check(
            second,
            second_enabled,
            second_asked_at,
            second_settled_at,
            second_text,
        ).state.last_text == second.last_text,
{
}

/// Only the debounce consultation of a selection check touches the debounce
/// guard: samples and selected text leave it alone, so the stamp of one check
/// is still in place when the next check consults the guard.
pub proof fn lemma_debounce_survives_other_steps(
    state: ServiceModel,
    polled: Option<SampleView>,
    now: u64,
    text: Option<Seq<char>>,
)
    ensures
        state.on_sample(polled, now).state.debounce == state.debounce,
        state.on_selected_text(text).state.debounce == state.debounce,
        state.on_extraction_enabled(false, now).state.debounce == state.debounce,
{
}

/// The time recorded by the debounce guard never moves backwards, whatever
/// step the service takes.
pub proof fn lemma_debounce_never_rewinds(
    state: ServiceModel,
    polled: Option<SampleView>,
    enabled: bool,
    now: u64,
    text: Option<Seq<char>>,
)
    ensures
        never_rewinds(state, state.on_sample(polled, now).state),
        never_rewinds(state, state.on_extraction_enabled(enabled, now).state),
        never_rewinds(state, state.on_settled(now).state),
        never_rewinds(state, state.on_selected_text(text).state),
{
}

/// Whether `after` records an emission no earlier than `before` does, with
/// the same interval.
pub open spec fn never_rewinds(before: ServiceModel, after: ServiceModel) -> bool {
    &&& after.debounce.min_interval == before.debounce.min_interval
    &&& before.debounce.last_emitted_at matches Some(t) ==> (after.debounce.last_emitted_at
        matches Some(u) && t <= u)
}

/// The selection is read only with the debounce guard's consent: a step that
/// enters the reading phase was allowed at its time and has stamped the guard
/// with it.
pub proof fn lemma_reading_needs_consent(state: ServiceModel, enabled: bool, now: u64)
    requires
        state.phase != Phase::Reading,
    ensures
        state.on_extraction_enabled(enabled, now).state.phase == Phase::Reading ==> enabled
            && state.debounce.permits(now) && state.on_extraction_enabled(
            enabled,
            now,
        ).state.debounce.last_emitted_at == Some(now),
        state.on_settled(now).state.phase == Phase::Reading ==> state.debounce.permits(now)
            && state.on_settled(now).state.debounce.last_emitted_at == Some(now),
{
}

/// Selected text is announced only from the reading phase, and then at most
/// once per step.
pub proof fn lemma_announcements_come_from_reading(
    state: ServiceModel,
    enabled: bool,
    now: u64,
    text: Option<Seq<char>>,
)
    ensures
        state.on_extraction_enabled(enabled, now).directive.events == Seq::<EventView>::empty(),
        state.on_settled(now).directive.events == Seq::<EventView>::empty(),
        state.phase != Phase::Reading ==> state.on_selected_text(text).directive.events
            == Seq::<EventView>::empty(),
        count_text_selected(state.on_selected_text(text).directive.events) <= 1,
{
    reveal_with_fuel(count_text_selected, 2);
    let events = state.on_selected_text(text).directive.events;
    if events.len() > 0 {
        assert(events.drop_last() == Seq::<EventView>::empty());
    }
}

/// The drag extent follows the selection button: if it is active exactly
/// when the previous sample shows the button held, the same is true after
/// any step.
pub proof fn lemma_drag_tracks_button(
    state: ServiceModel,
    polled: Option<SampleView>,
    enabled: bool,
    now: u64,
    text: Option<Seq<char>>,
)
    requires
        drag_tracks_button(state),
    ensures
        drag_tracks_button(state.on_sample(polled, now).state),
        drag_tracks_button(state.on_extraction_enabled(enabled, now).state),
        drag_tracks_button(state.on_settled(now).state),
        drag_tracks_button(state.on_selected_text(text).state),
{
}

/// Whether the drag extent is active exactly when the last sample shows the
/// selection button held.
pub open spec fn drag_tracks_button(state: ServiceModel) -> bool {
    state.classifier.drag.is_active == is_down(
        state.last_sample.buttons,
        state.config.primary_button as int,
    )
}

/// A poll that could not read the pointer passes in silence: the previous
/// sample stands in for it, so there is no edge, no movement and no event,
/// and the service is exactly where it was.
pub proof fn lemma_failed_poll_is_silent(state: ServiceModel, now: u64)
    requires
        state.running,
        state.phase == Phase::Polling,
    ensures
        state.on_sample(None, now) == state.stay(),
{
    lemma_no_transition_without_change(state.last_sample.buttons);
    reveal_with_fuel(events_of_transitions, 1);
    assert(state.on_sample(None, now).state.last_sample == state.last_sample);
}

/// A pointer sample together with the time at which it was read.
pub struct Tick {
    pub sample: SampleView,
    pub at: u64,
}

/// The state after answering one poll after the other with `ticks`.
pub open spec fn after_ticks(state: ServiceModel, ticks: Seq<Tick>) -> ServiceModel
    decreases ticks.len(),
{
    if ticks.len() == 0 {
        state
    } else {
        after_ticks(state, ticks.drop_last()).on_sample(
            Some(ticks.last().sample),
            ticks.last().at,
        ).state
    }
}

/// Whether the selection button is in the state `held` in each of `ticks`.
pub open spec fn primary_stays(primary: usize, held: bool, ticks: Seq<Tick>) -> bool {
    forall|i: int| 0 <= i < ticks.len() ==> is_down(ticks[i].sample.buttons, primary as int) == held
}

/// Ticks during which the selection button does not change leave the click
/// timing, the drag extent, the debounce guard and the remembered text as
/// they are, and ask for no selection check: the service keeps polling.
pub proof fn lemma_quiet_ticks(state: ServiceModel, ticks: Seq<Tick>)
    requires
        state.running,
        state.phase == Phase::Polling,
        primary_stays(
            state.config.primary_button,
            is_down(state.last_sample.buttons, state.config.primary_button as int),
            ticks,
        ),
    ensures
        ({
            let end = after_ticks(state, ticks);
            &&& end.running
            &&& end.phase == Phase::Polling
            &&& end.config == state.config
            &&& end.classifier == state.classifier
            &&& end.debounce == state.debounce
            &&& end.icon == state.icon
            &&& end.last_text == state.last_text
            &&& is_down(end.last_sample.buttons, state.config.primary_button as int) == is_down(
                state.last_sample.buttons,
                state.config.primary_button as int,
            )
        }),
    decreases ticks.len(),
{
    if ticks.len() > 0 {
        let earlier = ticks.drop_last();
        assert forall|i: int| 0 <= i < earlier.len() implies is_down(
            earlier[i].sample.buttons,
            state.config.primary_button as int,
        ) == is_down(state.last_sample.buttons, state.config.primary_button as int) by {
            assert(earlier[i] == ticks[i]);
        }
        lemma_quiet_ticks(state, earlier);
        assert(is_down(ticks.last().sample.buttons, state.config.primary_button as int) == is_down(
            state.last_sample.buttons,
            state.config.primary_button as int,
        )) by {
            assert(ticks.last() == ticks[ticks.len() - 1]);
        }
    }
}

/// A press and release of the selection button ask for a selection check
/// exactly when the pointer is not where the button went down: a click in
/// place asks for none, a drag for one on behalf of the drag. Either way the
/// drag extent is active from the press to the release and not after it.
pub proof fn lemma_release_asks_only_after_a_drag(
    state: ServiceModel,
    press: Tick,
    held: Seq<Tick>,
    release: Tick,
)
    requires
        state.running,
        state.phase == Phase::Polling,
        !is_down(state.last_sample.buttons, state.config.primary_button as int),
        is_down(press.sample.buttons, state.config.primary_button as int),
        primary_stays(state.config.primary_button, true, held),
        !is_down(release.sample.buttons, state.config.primary_button as int),
        !state.classifier.click.completes_double_click(
            press.at,
            state.config.double_click_window_ms,
        ),
    ensures
        ({
            let pressed = state.on_sample(Some(press.sample), press.at);
            let holding = after_ticks(pressed.state, held);
            let lifted = holding.on_sample(Some(release.sample), release.at);
            &&& pressed.state.phase == Phase::Polling
            &&& pressed.state.classifier.drag.is_active
            &&& holding.classifier.drag.is_active
            &&& !lifted.state.classifier.drag.is_active
            &&& lifted.state.phase == if release.sample.position != press.sample.position {
                Phase::AwaitingEnabled(SelectionTrigger::Drag)
            } else {
                Phase::Polling
            }
            &&& lifted.directive.next == lifted.state.awaited()
        }),
{
    let pressed = state.on_sample(Some(press.sample), press.at);
    lemma_quiet_ticks(pressed.state, held);
}

/// The circumstances of one selection check: whether extraction is enabled,
/// when that answer arrives, when a settle delay ends, and what reading the
/// selection yields.
pub struct CheckRun {
    pub enabled: bool,
    pub asked_at: u64,
    pub settled_at: u64,
    pub text: Option<Seq<char>>,
}

/// The state after the tick `release` and, if that tick asks for a selection
/// check, after the whole check under the circumstances `run`.
pub open spec fn after_release(state: ServiceModel, release: Tick, run: CheckRun) -> ServiceModel {
    let lifted = state.on_sample(Some(release.sample), release.at).state;
    if lifted.phase is AwaitingEnabled {
        selection_check(lifted, run.enabled, run.asked_at, run.settled_at, run.text).state
    } else {
        lifted
    }
}

/// Whatever a release of the selection button does, it leaves the click
/// timing alone and the service polling: the release may end a click in
/// place or a drag, and the drag's selection check may be disabled, vetoed,
/// fruitless or announce text of its own.
pub proof fn lemma_release_keeps_click_timing(state: ServiceModel, release: Tick, run: CheckRun)
    requires
        state.running,
        state.phase == Phase::Polling,
        is_down(state.last_sample.buttons, state.config.primary_button as int),
        !is_down(release.sample.buttons, state.config.primary_button as int),
    ensures
        ({
            let end = after_release(state, release, run);
            &&& end.running
            &&& end.phase == Phase::Polling
            &&& end.config == state.config
            &&& end.icon == state.icon
            &&& end.classifier.click == state.classifier.click
            &&& !end.classifier.drag.is_active
            &&& end.last_sample == release.sample
            &&& never_rewinds(state, end)
        }),
{
    let lifted = state.on_sample(Some(release.sample), release.at).state;
    if lifted.phase is AwaitingEnabled {
        lemma_selection_check_outcome(
            lifted,
            SelectionTrigger::Drag,
            run.enabled,
            run.asked_at,
            run.settled_at,
            run.text,
        );
    }
}

/// The state in which the second press of a pair finds the service: after
/// the first press, the ticks with the button held, the release with
/// whatever it led to, and the ticks with the button up.
pub open spec fn before_second_press(
    state: ServiceModel,
    first: Tick,
    held: Seq<Tick>,
    release: Tick,
    between: CheckRun,
    released: Seq<Tick>,
) -> ServiceModel {
    after_ticks(
        after_release(
            after_ticks(state.on_sample(Some(first.sample), first.at).state, held),
            release,
            between,
        ),
        released,
    )
}

/// A double-click is recognised once per pair of presses, and its selection
/// check announces the selected text exactly once.
///
/// The service is polling. The selection button goes down at `first.at`
/// without completing an earlier pair, stays down during `held`, comes up
/// anywhere, stays up during `released`, and goes down again at `second.at`,
/// less than the double-click window after the first press. What the release
/// leads to in between is open: nothing, or a drag's selection check under
/// any circumstances `between`.
///
/// Then handling the first press announces nothing and asks for no check.
/// Handling the second press asks for one check on behalf of the
/// double-click, and with extraction enabled, the debounce guard open at that
/// time and new, non-empty text selected, that check announces the text
/// once. The pair is used up: when the button comes up again, whatever that
/// leads to, and goes down a third time, however soon, no further check is
/// asked for.
pub proof fn lemma_double_click_announces_once(
    state: ServiceModel,
    first: Tick,
    held: Seq<Tick>,
    release: Tick,
    between: CheckRun,
    released: Seq<Tick>,
    second: Tick,
    asked_at: u64,
    text: Seq<char>,
    held_again: Seq<Tick>,
    second_release: Tick,
    afterwards: CheckRun,
    released_again: Seq<Tick>,
    third: Tick,
)
    requires
        state.running,
        state.phase == Phase::Polling,
        !is_down(state.last_sample.buttons, state.config.primary_button as int),
        is_down(first.sample.buttons, state.config.primary_button as int),
        primary_stays(state.config.primary_button, true, held),
        !is_down(release.sample.buttons, state.config.primary_button as int),
        primary_stays(state.config.primary_button, false, released),
        is_down(second.sample.buttons, state.config.primary_button as int),
        !state.classifier.click.completes_double_click(
            first.at,
            state.config.double_click_window_ms,
        ),
        second.at - first.at < state.config.double_click_window_ms,
        before_second_press(state, first, held, release, between, released).debounce.permits(
            asked_at,
        ),
        text.len() > 0,
        text != before_second_press(state, first, held, release, between, released).last_text,
        primary_stays(state.config.primary_button, true, held_again),
        !is_down(second_release.sample.buttons, state.config.primary_button as int),
        primary_stays(state.config.primary_button, false, released_again),
        is_down(third.sample.buttons, state.config.primary_button as int),
    ensures
        ({
            let pressed = state.on_sample(Some(first.sample), first.at);
            let waiting = before_second_press(state, first, held, release, between, released);
            let again = waiting.on_sample(Some(second.sample), second.at);
            let check = selection_check(again.state, true, asked_at, asked_at, Some(text));
            let idle = after_ticks(
                after_release(
                    after_ticks(check.state, held_again),
                    second_release,
                    afterwards,
                ),
                released_again,
            );
            let once_more = idle.on_sample(Some(third.sample), third.at);
            &&& pressed.state.phase == Phase::Polling
            &&& count_text_selected(pressed.directive.events) == 0
            &&& waiting.classifier.click.last_click_at == Some(first.at)
            &&& again.state.phase == Phase::AwaitingEnabled(SelectionTrigger::DoubleClick)
            &&& again.directive.next == Request::QueryExtractionEnabled
            &&& count_text_selected(again.directive.events) == 0
            &&& check.directive.events == seq![EventView::TextSelected(text)]
            &&& count_text_selected(check.directive.events) == 1
            &&& check.state.phase == Phase::Polling
            &&& check.state.classifier.click.last_click_at.is_none()
            &&& idle.classifier.click.last_click_at.is_none()
            &&& once_more.state.phase == Phase::Polling
            &&& once_more.state.classifier.click.last_click_at == Some(third.at)
        }),
{
    let pressed = state.on_sample(Some(first.sample), first.at);
    lemma_quiet_ticks(pressed.state, held);
    let holding = after_ticks(pressed.state, held);
    lemma_release_keeps_click_timing(holding, release, between);
    let lifted = after_release(holding, release, between);
    lemma_quiet_ticks(lifted, released);
    let waiting = after_ticks(lifted, released);
    let again = waiting.on_sample(Some(second.sample), second.at);
    let check = selection_check(again.state, true, asked_at, asked_at, Some(text));
    lemma_samples_announce_nothing(state, Some(first.sample), first.at);
    lemma_samples_announce_nothing(waiting, Some(second.sample), second.at);
    lemma_selection_check_outcome(
        again.state,
        SelectionTrigger::DoubleClick,
        true,
        asked_at,
        asked_at,
        Some(text),
    );
    reveal_with_fuel(count_text_selected, 2);
    assert(check.directive.events.drop_last() == Seq::<EventView>::empty());
    lemma_quiet_ticks(check.state, held_again);
    let holding_again = after_ticks(check.state, held_again);
    lemma_release_keeps_click_timing(holding_again, second_release, afterwards);
    lemma_quiet_ticks(after_release(holding_again, second_release, afterwards), released_again);
}

} // verus!
