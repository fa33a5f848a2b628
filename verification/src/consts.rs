//! Fixed characteristics of the HBee front panel and its control loop.

use vstd::prelude::*;

verus! {

/// Physical pixel columns of the panel in its un-rotated frame.
pub const DISPLAY_WIDTH: u16 = 320;

/// Physical pixel rows of the panel in its un-rotated frame.
pub const DISPLAY_HEIGHT: u16 = 240;

/// Serial clock the display bus is opened with, in hertz.
pub const FRONT_DISPLAY_CLOCK_HZ: u32 = 16_000_000;

/// Fastest serial clock the panel controller tolerates, in hertz.
pub const PANEL_MAX_CLOCK_HZ: u32 = 40_000_000;

/// Seconds the supervisor waits after a fatal fault before it restarts the
/// device.
pub const RESTART_BACKOFF_SECS: u64 = 10;

/// Seconds between two steady-state refresh ticks.
pub const TICK_INTERVAL_SECS: u64 = 5;

/// Platform fault code for an operation attempted in an invalid state, such
/// as taking the peripheral set twice.
pub const ESP_ERR_INVALID_STATE: i32 = 259;

/// Platform fault code for a rejected argument, such as a bus configuration
/// outside the panel's tolerances.
pub const ESP_ERR_INVALID_ARG: i32 = 258;

} // verus!
