//! The gesture-detection service as a state machine without I/O.
//!
//! The service never blocks, sleeps, polls or calls back. Every step takes
//! the answer to the previous [`Request`] and returns a [`Directive`]: the
//! events to hand to the handler, in order, and the next request. A driver
//! loop performs the requests; because a directive names exactly one request,
//! sampling and text extraction can never run side by side.

use vstd::prelude::*;
use crate::config::GestureConfig;
use crate::dispatch::{Directive, DirectiveView, Phase, Request};
use crate::event::{event_views, EventView, MouseEvent};
use crate::gesture::{DragExtent, GestureClassifier, SelectionTrigger};
use crate::icon::{IconBounds, IconRect};
use crate::sample::{PointerSample, SampleView};
use crate::timing::{ClickTiming, DebounceWindow};

verus! {

/// The mathematical state of a [`MouseService`].
pub struct ServiceModel {
    pub config: GestureConfig,
    pub running: bool,
    pub phase: Phase,
    pub classifier: GestureClassifier,
    pub debounce: DebounceWindow,
    pub icon: IconBounds,
    pub last_sample: SampleView,
    pub last_text: Seq<char>,
}

/// A state together with the directive that led to it.
pub struct Step {
    pub state: ServiceModel,
    pub directive: DirectiveView,
}

impl ServiceModel {
    /// The state of a service that was just created with `config`.
    pub open spec fn initial(config: GestureConfig) -> ServiceModel {
        ServiceModel {
            config,
            running: false,
            phase: Phase::Stopped,
            classifier: GestureClassifier {
                drag: DragExtent { start_position: (0i32, 0i32), is_active: false },
                click: ClickTiming { last_click_at: None },
            },
            debounce: DebounceWindow {
                last_emitted_at: None,
                min_interval: config.debounce_interval_ms,
            },
            icon: IconBounds { rect: None, visible: false },
            last_sample: SampleView { position: (0i32, 0i32), buttons: Seq::empty() },
            last_text: Seq::empty(),
        }
    }

    /// The request that the current phase is waiting on.
    pub open spec fn awaited(self) -> Request {
        match self.phase {
            Phase::Stopped => Request::Halt,
            Phase::Polling => Request::Poll { delay_ms: self.config.tick_interval_ms },
            Phase::AwaitingEnabled(_) => Request::QueryExtractionEnabled,
            Phase::Settling => Request::Settle { delay_ms: self.config.settle_delay_ms },
            Phase::Reading => Request::ReadSelectedText,
        }
    }

    /// This state in another phase.
    pub open spec fn in_phase(self, phase: Phase) -> ServiceModel {
        ServiceModel { phase, ..self }
    }

    /// The step that delivers `events` and then asks for whatever the
    /// resulting phase waits on.
    pub open spec fn proceed(self, events: Seq<EventView>) -> Step {
        Step { state: self, directive: DirectiveView { events, next: self.awaited() } }
    }

    /// The step taken on an answer that the current phase does not wait for:
    /// nothing changes, and the outstanding request is asked again.
    pub open spec fn stay(self) -> Step {
        self.proceed(Seq::empty())
    }

    /// The step that ends an iteration: back to polling while the service
    /// runs, to a halt once it was stopped.
    pub open spec fn rest(self, events: Seq<EventView>) -> Step {
        self.in_phase(
            if self.running {
                Phase::Polling
            } else {
                Phase::Stopped
            },
        ).proceed(events)
    }

    /// The state after `start`: running, polling, with `first` as the sample
    /// to compare the next one against and no text seen yet.
    pub open spec fn started(self, first: SampleView) -> ServiceModel {
        ServiceModel {
            running: true,
            phase: Phase::Polling,
            last_sample: first,
            last_text: Seq::empty(),
            ..self
        }
    }

    /// The sample a poll stands for: the one read, or the previous one when
    /// the pointer could not be read.
    pub open spec fn effective_sample(self, polled: Option<SampleView>) -> SampleView {
        match polled {
            Some(sample) => sample,
            None => self.last_sample,
        }
    }

    /// The step on a pointer sample read at `now`.
    ///
    /// While polling and running, the sample is classified against the
    /// previous one: the tick's events are delivered, and a gesture that
    /// calls for a selection check makes the service ask whether extraction
    /// is enabled. A service that was stopped halts instead.
    pub open spec fn on_sample(self, polled: Option<SampleView>, now: u64) -> Step {
        if self.phase != Phase::Polling {
            self.stay()
        } else if !self.running {
            self.in_phase(Phase::Stopped).stay()
        } else {
            let cur = self.effective_sample(polled);
            let check = self.classifier.tick_check(self.last_sample, cur, now, self.config);
            let events = self.classifier.tick_events(
                self.last_sample,
                cur,
                now,
                self.icon,
                self.config,
            );
            ServiceModel {
                classifier: self.classifier.after_tick(self.last_sample, cur, now, self.config),
                last_sample: cur,
                phase: match check {
                    Some(trigger) => Phase::AwaitingEnabled(trigger),
                    None => Phase::Polling,
                },
                ..self
            }.proceed(events)
        }
    }

    /// The step that consults the debounce guard at `now`: an allowed check
    /// is stamped and goes on to read the selection, a vetoed one ends
    /// silently.
    pub open spec fn consult_debounce(self, now: u64) -> Step {
        let guarded = ServiceModel { debounce: self.debounce.after_request(now), ..self };
        if self.debounce.permits(now) {
            guarded.in_phase(Phase::Reading).stay()
        } else {
            guarded.rest(Seq::empty())
        }
    }

    /// The step on the answer to "is gesture-triggered extraction enabled",
    /// read at `now`. Disabled: the check ends silently. Enabled after a
    /// drag: the settle delay comes first. Enabled after a double-click: the
    /// debounce guard is consulted at once.
    pub open spec fn on_extraction_enabled(self, enabled: bool, now: u64) -> Step {
        match self.phase {
            Phase::AwaitingEnabled(trigger) => {
                if !enabled {
                    self.rest(Seq::empty())
                } else if trigger == SelectionTrigger::Drag {
                    self.in_phase(Phase::Settling).stay()
                } else {
                    self.consult_debounce(now)
                }
            },
            _ => self.stay(),
        }
    }

    /// The step at the end of the settle delay, at time `now`.
    pub open spec fn on_settled(self, now: u64) -> Step {
        if self.phase == Phase::Settling {
            self.consult_debounce(now)
        } else {
            self.stay()
        }
    }

    /// Whether `text` is worth announcing: it was read, is not empty and
    /// differs from the text seen last.
    pub open spec fn is_new_selection(self, text: Option<Seq<char>>) -> bool {
        is_new_text(text, self.last_text)
    }

    /// The step on the selected text, `None` when it could not be read. New
    /// text is remembered and announced; anything else ends the check
    /// silently.
    pub open spec fn on_selected_text(self, text: Option<Seq<char>>) -> Step {
        if self.phase != Phase::Reading {
            self.stay()
        } else if self.is_new_selection(text) {
            ServiceModel { last_text: text->0, ..self }.rest(
                seq![EventView::TextSelected(text->0)],
            )
        } else {
            self.rest(Seq::empty())
        }
    }
}

/// What an answer to "is gesture-triggered extraction enabled" amounts to:
/// enabled only if the setting was read and says so.
pub open spec fn enabled_in(answer: Result<bool, String>) -> bool {
    answer matches Ok(enabled) && enabled
}

/// What a poll amounts to: the sample read, or nothing when the pointer
/// could not be read.
pub open spec fn sample_in(polled: Option<PointerSample>) -> Option<SampleView> {
    match polled {
        Some(sample) => Some(sample@),
        None => None,
    }
}

/// What an attempt to read the selection amounts to: the text read, or
/// nothing when the attempt failed.
pub open spec fn text_in(extracted: Result<String, String>) -> Option<Seq<char>> {
    match extracted {
        Ok(text) => Some(text@),
        Err(_) => None,
    }
}

/// Whether `text` is worth announcing after `last_text`: it was read, is not
/// empty and differs from `last_text`.
pub open spec fn is_new_text(text: Option<Seq<char>>, last_text: Seq<char>) -> bool {
    text matches Some(t) && t.len() > 0 && t != last_text
}

/// The gesture-detection service: classifier, debounce guard, icon registry
/// and dispatcher state in one place.
#[derive(Debug)]
pub struct MouseService {
    config: GestureConfig,
    running: bool,
    phase: Phase,
    classifier: GestureClassifier,
    debounce: DebounceWindow,
    icon: IconBounds,
    last_sample: PointerSample,
    last_text: String,
}

impl View for MouseService {
    type V = ServiceModel;

    closed spec fn view(&self) -> ServiceModel {
        ServiceModel {
            config: self.config,
            running: self.running,
            phase: self.phase,
            classifier: self.classifier,
            debounce: self.debounce,
            icon: self.icon,
            last_sample: self.last_sample@,
            last_text: self.last_text@,
        }
    }
}

impl MouseService {
    /// A stopped service with the standard configuration.
    pub fn new() -> (service: MouseService)
        ensures
            service@ == ServiceModel::initial(GestureConfig::standard()),
    {
        MouseService::with_config(GestureConfig::standard())
    }

    /// A stopped service with the given configuration.
    pub fn with_config(config: GestureConfig) -> (service: MouseService)
        ensures
            service@ == ServiceModel::initial(config),
    {
        MouseService {
            config,
            running: false,
            phase: Phase::Stopped,
            classifier: GestureClassifier::new(),
            debounce: DebounceWindow::new(config.debounce_interval_ms),
            icon: IconBounds::new(),
            last_sample: PointerSample::new(0, 0, Vec::new()),
            last_text: String::new(),
        }
    }

    /// Records the rectangle that the overlay indicator occupies.
    pub fn set_selection_icon_bounds(&mut self, x: i32, y: i32, width: i32, height: i32)
        ensures
            final(self)@ == (ServiceModel {
                icon: IconBounds {
                    rect: Some(IconRect { x, y, width, height }),
                    visible: old(self)@.icon.visible,
                },
                ..old(self)@
            }),
    {
        self.icon.set_bounds(x, y, width, height);
    }

    /// Records whether the overlay indicator is shown.
    pub fn set_selection_icon_visible(&mut self, visible: bool)
        ensures
            final(self)@ == (ServiceModel {
                icon: IconBounds { rect: old(self)@.icon.rect, visible },
                ..old(self)@
            }),
    {
        self.icon.set_visible(visible);
    }

    /// Whether a click at `(click_x, click_y)` lands on the shown indicator,
    /// edges included. Nothing is inside a hidden indicator.
    pub fn is_click_inside_icon(&self, click_x: i32, click_y: i32) -> (inside: bool)
        ensures
            inside == self@.icon.holds(click_x as int, click_y as int),
    {
        self.icon.contains(click_x, click_y)
    }

    /// Starts the service with `first` as the sample to compare the first
    /// poll against, and asks for that poll without delay.
    pub fn start(&mut self, first: PointerSample) -> (directive: Directive)
        ensures
            final(self)@ == old(self)@.started(first@),
            directive@ == (DirectiveView {
                events: Seq::empty(),
                next: Request::Poll { delay_ms: 0 },
            }),
    {
        self.running = true;
        self.phase = Phase::Polling;
        self.last_sample = first;
        self.last_text = String::new();
        let events: Vec<MouseEvent> = Vec::new();
        assert(event_views(events@) == Seq::<EventView>::empty());
        Directive { events, next: Request::Poll { delay_ms: 0 } }
    }

    /// Asks the service to stop. It halts at the end of the iteration it is
    /// in; a selection check under way is allowed to finish.
    pub fn stop(&mut self)
        ensures
            final(self)@ == (ServiceModel { running: false, ..old(self)@ }),
    {
        self.running = false;
    }

    /// Whether the service runs, that is was started and not stopped since.
    pub fn is_running(&self) -> (running: bool)
        ensures
            running == self@.running,
    {
        self.running
    }

    /// The answer the service is waiting for.
    pub fn phase(&self) -> (phase: Phase)
        ensures
            phase == self@.phase,
    {
        self.phase
    }

    /// Whether the selection button is held, as far as the service saw it
    /// go down and not yet come up.
    pub fn is_dragging(&self) -> (active: bool)
        ensures
            active == self@.classifier.drag.is_active,
    {
        self.classifier.drag.is_active
    }

    /// The parameters the service was created with.
    pub fn config(&self) -> (config: GestureConfig)
        ensures
            config == self@.config,
    {
        self.config
    }

    /// The overlay indicator's rectangle and visibility as last recorded.
    pub fn icon(&self) -> (icon: IconBounds)
        ensures
            icon == self@.icon,
    {
        self.icon
    }

    /// The debounce guard as it stands.
    pub fn debounce(&self) -> (window: DebounceWindow)
        ensures
            window == self@.debounce,
    {
        self.debounce
    }

    /// When the selection button was last pressed as a first click.
    pub fn click_timing(&self) -> (timing: ClickTiming)
        ensures
            timing == self@.classifier.click,
    {
        self.classifier.click
    }

    /// The text announced last, empty if none was since the start.
    pub fn last_text(&self) -> (text: &String)
        ensures
            text@ == self@.last_text,
    {
        &self.last_text
    }

    /// The request that the service is currently waiting on.
    pub fn awaited(&self) -> (request: Request)
        ensures
            request == self@.awaited(),
    {
        match self.phase {
            Phase::Stopped => Request::Halt,
            Phase::Polling => Request::Poll { delay_ms: self.config.tick_interval_ms },
            Phase::AwaitingEnabled(_) => Request::QueryExtractionEnabled,
            Phase::Settling => Request::Settle { delay_ms: self.config.settle_delay_ms },
            Phase::Reading => Request::ReadSelectedText,
        }
    }

    fn proceed(&self, events: Vec<MouseEvent>) -> (directive: Directive)
        ensures
            directive@ == self@.proceed(event_views(events@)).directive,
    {
        Directive { events, next: self.awaited() }
    }

    fn stay(&self) -> (directive: Directive)
        ensures
            directive@ == self@.stay().directive,
    {
        let events: Vec<MouseEvent> = Vec::new();
        assert(event_views(events@) == Seq::<EventView>::empty());
        self.proceed(events)
    }

    fn rest_quietly(&mut self) -> (directive: Directive)
        ensures
            final(self)@ == old(self)@.rest(Seq::empty()).state,
            directive@ == old(self)@.rest(Seq::empty()).directive,
    {
        let events: Vec<MouseEvent> = Vec::new();
        assert(event_views(events@) == Seq::<EventView>::empty());
        self.rest(events)
    }

    fn rest(&mut self, events: Vec<MouseEvent>) -> (directive: Directive)
        ensures
            final(self)@ == old(self)@.rest(event_views(events@)).state,
            directive@ == old(self)@.rest(event_views(events@)).directive,
    {
        self.phase = if self.running {
            Phase::Polling
        } else {
            Phase::Stopped
        };
        self.proceed(events)
    }

    fn consult_debounce(&mut self, now: u64) -> (directive: Directive)
        ensures
            final(self)@ == old(self)@.consult_debounce(now).state,
            directive@ == old(self)@.consult_debounce(now).directive,
    {
        if self.debounce.should_emit(now) {
            self.phase = Phase::Reading;
            self.stay()
        } else {
            self.rest_quietly()
        }
    }

    /// Takes a pointer sample read at `now`, or `None` when the pointer could
    /// not be read, in which case the previous sample stands in for it.
    pub fn on_sample(&mut self, polled: Option<PointerSample>, now: u64) -> (directive: Directive)
        ensures
            final(self)@ == old(self)@.on_sample(sample_in(polled), now).state,
            directive@ == old(self)@.on_sample(sample_in(polled), now).directive,
    {
        if self.phase != Phase::Polling {
            return self.stay();
        }
        if !self.running {
            self.phase = Phase::Stopped;
            return self.stay();
        }
        let current = match polled {
            Some(sample) => sample,
            None => self.last_sample.clone(),
        };
        let found = self.classifier.classify(
            &self.last_sample,
            &current,
            now,
            &self.icon,
            &self.config,
        );
        self.last_sample = current;
        self.phase = match found.check {
            Some(trigger) => Phase::AwaitingEnabled(trigger),
            None => Phase::Polling,
        };
        self.proceed(found.events)
    }

    /// Reads the answer to "is gesture-triggered extraction enabled": a
    /// setting that could not be read counts as disabled.
    pub fn is_double_click_enabled(answer: &Result<bool, String>) -> (enabled: bool)
        ensures
            enabled == enabled_in(*answer),
    {
        match answer {
            Ok(enabled) => *enabled,
            Err(_) => false,
        }
    }

    /// Decides whether freshly read text is to be announced. Text that was
    /// read, is not empty and differs from `last_text` replaces `last_text`
    /// and is returned; otherwise `last_text` stays and nothing is returned.
    pub fn check_for_selected_text(
        extracted: Result<String, String>,
        last_text: &mut String,
    ) -> (announced: Option<String>)
        ensures
            announced.is_some() == is_new_text(text_in(extracted), old(last_text)@),
            announced matches Some(text) ==> Some(text@) == text_in(extracted),
            final(last_text)@ == match announced {
                Some(text) => text@,
                None => old(last_text)@,
            },
    {
        if let Ok(selected_text) = extracted {
            if !selected_text.as_str().is_empty() && selected_text != *last_text {
                *last_text = selected_text.clone();
                return Some(selected_text);
            }
        }
        None
    }

    /// Takes the answer to "is gesture-triggered extraction enabled", read
    /// at `now`; an answer that is an error counts as disabled.
    pub fn on_extraction_enabled(&mut self, answer: Result<bool, String>, now: u64) -> (directive:
        Directive)
        ensures
            final(self)@ == old(self)@.on_extraction_enabled(enabled_in(answer), now).state,
            directive@ == old(self)@.on_extraction_enabled(enabled_in(answer), now).directive,
    {
        let enabled = MouseService::is_double_click_enabled(&answer);
        match self.phase {
            Phase::AwaitingEnabled(trigger) => {
                if !enabled {
                    self.rest_quietly()
                } else if trigger == SelectionTrigger::Drag {
                    self.phase = Phase::Settling;
                    self.stay()
                } else {
                    self.consult_debounce(now)
                }
            },
            _ => self.stay(),
        }
    }

    /// Takes the end of the settle delay, at time `now`.
    pub fn on_settled(&mut self, now: u64) -> (directive: Directive)
        ensures
            final(self)@ == old(self)@.on_settled(now).state,
            directive@ == old(self)@.on_settled(now).directive,
    {
        if self.phase == Phase::Settling {
            self.consult_debounce(now)
        } else {
            self.stay()
        }
    }

    /// Takes the outcome of reading the selected text; a failed read is
    /// treated as no new selection.
    pub fn on_selected_text(&mut self, extracted: Result<String, String>) -> (directive: Directive)
        ensures
            final(self)@ == old(self)@.on_selected_text(text_in(extracted)).state,
            directive@ == old(self)@.on_selected_text(text_in(extracted)).directive,
    {
        if self.phase != Phase::Reading {
            return self.stay();
        }
        match MouseService::check_for_selected_text(extracted, &mut self.last_text) {
            Some(text) => {
                let mut events: Vec<MouseEvent> = Vec::new();
                let ghost announced = text@;
                events.push(MouseEvent::TextSelected(text));
                assert(event_views(events@) == seq![EventView::TextSelected(announced)]);
                self.rest(events)
            },
            None => self.rest_quietly(),
        }
    }
}

} // verus!
