//! The fixed intervals of the sampler and of the consumers, in milliseconds.

use vstd::prelude::*;

verus! {

/// Pause of the sampler between two sampling cycles.
pub const SAMPLE_INTERVAL_MS: u64 = 5;

/// Pause of the healing consumer when no key is called for.
pub const HEAL_POLL_INTERVAL_MS: u64 = 5;

/// Pause of the healing consumer after a key press, about the time that the
/// heal takes to have its effect.
pub const HEAL_CAST_TIME_MS: u64 = 1000;

/// Pause of the healing consumer while the game is not in the foreground.
pub const UNFOCUSED_BACKOFF_MS: u64 = 3000;

/// Pause of the alert consumer when no alert is due.
pub const ALERT_POLL_INTERVAL_MS: u64 = 5;

/// Pause of the alert consumer after a beep, on top of the time that the
/// beep itself takes: none.
pub const ALERT_BACKOFF_MS: u64 = 0;

} // verus!
