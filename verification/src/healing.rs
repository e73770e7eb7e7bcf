//! The healing decision: which restorative key, if any, the published
//! markers call for.
//!
//! The decision is a priority cascade over the three health markers. The
//! conditions are tried in a fixed order and the first that holds decides,
//! so at most one key is chosen for one state.

use vstd::prelude::*;
use crate::color::{is_critical, is_healthy, is_low};
use crate::focus::{is_focused, is_target_app, name_view, spec_is_focused, TARGET_APP};
use crate::markers::TibiaMarkers;
use crate::timing::{HEAL_CAST_TIME_MS, HEAL_POLL_INTERVAL_MS, UNFOCUSED_BACKOFF_MS};

verus! {

/// A restorative key.
#[derive(Clone, Copy, Debug, PartialEq, Eq, Structural)]
pub enum Key {
    /// The strongest heal.
    F2,
    /// The medium heal.
    F3,
    /// The lightest heal.
    F4,
}

/// The key that a state calls for:
/// the strongest heal when the first health marker is critical;
/// else the medium heal when the first health marker is low;
/// else the medium heal when the second health marker is not healthy;
/// else the lightest heal when the third health marker is not healthy;
/// else none.
pub open spec fn heal_decision(markers: TibiaMarkers) -> Option<Key> {
    if is_critical(markers.health_marker_one) {
        Some(Key::F2)
    } else if is_low(markers.health_marker_one) {
        Some(Key::F3)
    } else if !is_healthy(markers.health_marker_two) {
        Some(Key::F3)
    } else if !is_healthy(markers.health_marker_three) {
        Some(Key::F4)
    } else {
        None
    }
}

/// Decides which restorative key to press for the given markers, if any.
///
/// A critical first health marker always gives the strongest heal, whatever
/// the other two markers show. Three healthy health markers give no key.
pub fn auto_healing_task(markers: &TibiaMarkers) -> (key: Option<Key>)
    ensures
        key == heal_decision(*markers),
        is_critical(markers.health_marker_one) ==> key == Some(Key::F2),
        is_healthy(markers.health_marker_one) && is_healthy(markers.health_marker_two)
            && is_healthy(markers.health_marker_three) ==> key is None,
{
    if markers.health_marker_one.is_critical() {
        return Some(Key::F2);
    }
    if markers.health_marker_one.is_low() {
        return Some(Key::F3);
    }
    if !markers.health_marker_two.is_healthy() {
        return Some(Key::F3);
    }
    if !markers.health_marker_three.is_healthy() {
        return Some(Key::F4);
    }
    None
}

/// What the healing consumer does next: press a key or not, then sleep.
#[derive(Clone, Copy, Debug, PartialEq, Eq, Structural)]
pub struct HealingStep {
    /// The key to press, if any.
    pub press: Option<Key>,
    /// How long to sleep afterwards, in milliseconds.
    pub sleep_ms: u64,
}

/// The next step of the healing consumer.
///
/// While the target application is not in the foreground no key is pressed,
/// whatever the markers show, and the consumer backs off. While it is, the
/// consumer presses the key that the markers call for and waits for the heal
/// to take effect, or polls again shortly when they call for none.
pub open spec fn spec_healing_step(focused: bool, markers: TibiaMarkers) -> HealingStep {
    if !focused {
        HealingStep { press: None, sleep_ms: UNFOCUSED_BACKOFF_MS }
    } else if heal_decision(markers) is Some {
        HealingStep { press: heal_decision(markers), sleep_ms: HEAL_CAST_TIME_MS }
    } else {
        HealingStep { press: None, sleep_ms: HEAL_POLL_INTERVAL_MS }
    }
}

/// Decides the next step of the healing consumer from the name of the
/// foreground application and the published markers.
pub fn healing_step(foreground: &String, markers: &TibiaMarkers) -> (step: HealingStep)
    ensures
        step == spec_healing_step(foreground@ == TARGET_APP@, *markers),
        foreground@ != TARGET_APP@ ==> step.press is None && step.sleep_ms
            == UNFOCUSED_BACKOFF_MS,
{
    if !is_target_app(foreground) {
        return HealingStep { press: None, sleep_ms: UNFOCUSED_BACKOFF_MS };
    }
    match auto_healing_task(markers) {
        Some(key) => HealingStep { press: Some(key), sleep_ms: HEAL_CAST_TIME_MS },
        None => HealingStep { press: None, sleep_ms: HEAL_POLL_INTERVAL_MS },
    }
}

/// Decides the next step of the healing consumer where the name of the
/// foreground application may be missing. Without a name the application
/// counts as not in the foreground: no key is pressed, whatever the markers
/// show, and the consumer backs off.
pub fn healing_step_for(foreground: &Option<String>, markers: &TibiaMarkers) -> (step:
    HealingStep)
    ensures
        step == spec_healing_step(spec_is_focused(name_view(*foreground)), *markers),
        !spec_is_focused(name_view(*foreground)) ==> step.press is None && step.sleep_ms
            == UNFOCUSED_BACKOFF_MS,
        foreground is None ==> step.press is None && step.sleep_ms == UNFOCUSED_BACKOFF_MS,
{
    if !is_focused(foreground) {
        return HealingStep { press: None, sleep_ms: UNFOCUSED_BACKOFF_MS };
    }
    match auto_healing_task(markers) {
        Some(key) => HealingStep { press: Some(key), sleep_ms: HEAL_CAST_TIME_MS },
        None => HealingStep { press: None, sleep_ms: HEAL_POLL_INTERVAL_MS },
    }
}

} // verus!
