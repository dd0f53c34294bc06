//! Click timing and debouncing over millisecond timestamps.
//!
//! A timestamp is a reading of a monotonic clock in milliseconds. The two
//! windows kept here are independent: the double-click window recognises a
//! gesture, the debounce interval rations announcements.

use vstd::prelude::*;

verus! {

/// Two presses closer than this form a double-click.
pub const DOUBLE_CLICK_WINDOW_MS: u64 = 500;

/// Minimum spacing between two selection announcements.
pub const DEBOUNCE_INTERVAL_MS: u64 = 300;

/// Remembers when the primary button was last pressed as a first click.
#[derive(Clone, Copy, Debug, PartialEq, Eq, Structural)]
pub struct ClickTiming {
    pub last_click_at: Option<u64>,
}

impl ClickTiming {
    /// Whether a press at `now` completes a double-click: an earlier click
    /// is on record and less than `window` milliseconds have passed since.
    pub open spec fn completes_double_click(self, now: u64, window: u64) -> bool {
        self.last_click_at matches Some(t) && now - t < window
    }

    /// The timing after a press at `now`: a completed double-click clears
    /// the record, any other press becomes the new first click.
    pub open spec fn after_press(self, now: u64, window: u64) -> ClickTiming {
        if self.completes_double_click(now, window) {
            ClickTiming { last_click_at: None }
        } else {
            ClickTiming { last_click_at: Some(now) }
        }
    }

    /// No click on record.
    pub fn new() -> (timing: ClickTiming)
        ensures
            timing.last_click_at.is_none(),
    {
        ClickTiming { last_click_at: None }
    }

    /// Accounts for a press of the primary button at `now` and tells whether
    /// it was the second half of a double-click.
    pub fn register_press(&mut self, now: u64, window: u64) -> (double_click: bool)
        ensures
            double_click == old(self).completes_double_click(now, window),
            *final(self) == old(self).after_press(now, window),
    {
        let double_click = match self.last_click_at {
            Some(t) => now < t || now - t < window,
            None => false,
        };
        if double_click {
            self.last_click_at = None;
        } else {
            self.last_click_at = Some(now);
        }
        double_click
    }
}

/// Rations emissions of one kind of event to one per interval.
#[derive(Clone, Copy, Debug, PartialEq, Eq, Structural)]
pub struct DebounceWindow {
    pub last_emitted_at: Option<u64>,
    pub min_interval: u64,
}

impl DebounceWindow {
    /// Whether an emission at `now` is allowed: nothing was emitted yet, or
    /// at least `min_interval` milliseconds lie between the last emission
    /// and `now`.
    pub open spec fn permits(self, now: u64) -> bool {
        self.last_emitted_at matches Some(t) ==> now - t >= self.min_interval
    }

    /// The window after an emission at `now`.
    pub open spec fn stamped(self, now: u64) -> DebounceWindow {
        DebounceWindow { last_emitted_at: Some(now), min_interval: self.min_interval }
    }

    /// The window after asking for an emission at `now`: stamped when the
    /// emission is allowed, untouched when it is vetoed.
    pub open spec fn after_request(self, now: u64) -> DebounceWindow {
        if self.permits(now) {
            self.stamped(now)
        } else {
            self
        }
    }

    /// A window that has not emitted yet.
    pub fn new(min_interval: u64) -> (window: DebounceWindow)
        ensures
            window == (DebounceWindow { last_emitted_at: None, min_interval }),
    {
        DebounceWindow { last_emitted_at: None, min_interval }
    }

    /// Check-and-set in one step: returns whether an emission at `now` is
    /// allowed and, if it is, records `now` before returning, so that the
    /// next request already sees it.
    pub fn should_emit(&mut self, now: u64) -> (allowed: bool)
        ensures
            allowed == old(self).permits(now),
            *final(self) == old(self).after_request(now),
    {
        let allowed = match self.last_emitted_at {
            Some(t) => now >= t && now - t >= self.min_interval,
            None => true,
        };
        if allowed {
            self.last_emitted_at = Some(now);
        }
        allowed
    }
}

/// The recorded emission time never moves backwards, and it moves only when
/// an emission is allowed.
pub proof fn lemma_debounce_stamp_is_monotonic(window: DebounceWindow, now: u64)
    ensures
        window.after_request(now).min_interval == window.min_interval,
        window.last_emitted_at matches Some(t) ==> (window.after_request(now).last_emitted_at
            matches Some(u) && t <= u),
        window.after_request(now) != window ==> window.permits(now),
        window.permits(now) ==> window.after_request(now).last_emitted_at == Some(now),
{
}

/// Of two requests closer together than the interval, only the first is
/// allowed: once a request at `first` went through, one at `second` is vetoed
/// and leaves the window as the first left it.
pub proof fn lemma_debounce_suppresses_second(window: DebounceWindow, first: u64, second: u64)
    requires
        window.permits(first),
        first <= second,
        second - first < window.min_interval,
    ensures
        !window.after_request(first).permits(second),
        window.after_request(first).after_request(second) == window.after_request(first),
{
}

/// A request at least one interval after the last allowed one goes through.
pub proof fn lemma_debounce_reopens(window: DebounceWindow, first: u64, later: u64)
    requires
        window.permits(first),
        later - first >= window.min_interval,
    ensures
        window.after_request(first).permits(later),
{
}

/// A double-click is recognised once per pair of presses: the press that
/// completes it clears the record, so the press after it starts a new pair
/// however soon it comes.
pub proof fn lemma_double_click_consumes_pair(
    timing: ClickTiming,
    first: u64,
    second: u64,
    third: u64,
    window: u64,
)
    requires
        !timing.completes_double_click(first, window),
        second - first < window,
    ensures
        timing.after_press(first, window).completes_double_click(second, window),
        !timing.after_press(first, window).after_press(second, window).completes_double_click(
            third,
            window,
        ),
        timing.after_press(first, window).after_press(second, window).after_press(third, window)
            == (ClickTiming { last_click_at: Some(third) }),
{
}

} // verus!
