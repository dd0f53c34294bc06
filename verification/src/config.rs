//! Tunable durations and the choice of the selection button.

use vstd::prelude::*;
use crate::timing::{DEBOUNCE_INTERVAL_MS, DOUBLE_CLICK_WINDOW_MS};

verus! {

/// Pause after a drag ends, before the selection is read, so that the
/// operating system can finish updating it.
pub const SETTLE_DELAY_MS: u64 = 50;

/// Pause between two polls of the pointer.
pub const TICK_INTERVAL_MS: u64 = 10;

/// Id of the button that selects text.
pub const PRIMARY_BUTTON: usize = 1;

/// The adjustable parameters of gesture detection. The double-click window
/// and the debounce interval are independent of each other.
#[derive(Clone, Copy, Debug, PartialEq, Eq, Structural)]
pub struct GestureConfig {
    pub double_click_window_ms: u64,
    pub debounce_interval_ms: u64,
    pub settle_delay_ms: u64,
    pub tick_interval_ms: u64,
    pub primary_button: usize,
}

impl GestureConfig {
    /// The configuration with every parameter at its usual value.
    pub open spec fn standard_spec() -> GestureConfig {
        GestureConfig {
            double_click_window_ms: DOUBLE_CLICK_WINDOW_MS,
            debounce_interval_ms: DEBOUNCE_INTERVAL_MS,
            settle_delay_ms: SETTLE_DELAY_MS,
            tick_interval_ms: TICK_INTERVAL_MS,
            primary_button: PRIMARY_BUTTON,
        }
    }

    /// 500 ms double-click window, 300 ms debounce, 50 ms settle delay,
    /// 10 ms between polls, button 1 as the selection button.
    #[verifier::when_used_as_spec(standard_spec)]
    pub fn standard() -> (config: GestureConfig)
        ensures
            config == GestureConfig::standard_spec(),
    {
        GestureConfig {
            double_click_window_ms: DOUBLE_CLICK_WINDOW_MS,
            debounce_interval_ms: DEBOUNCE_INTERVAL_MS,
            settle_delay_ms: SETTLE_DELAY_MS,
            tick_interval_ms: TICK_INTERVAL_MS,
            primary_button: PRIMARY_BUTTON,
        }
    }
}

impl Default for GestureConfig {
    fn default() -> (config: GestureConfig)
        ensures
            config == GestureConfig::standard_spec(),
    {
        GestureConfig::standard()
    }
}

} // verus!
