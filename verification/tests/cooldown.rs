use tibia_markers::color::{attack_available, attack_in_cooldown, full_green, Rgb};
use tibia_markers::cooldown::{attack_cooldown_task, AlertStep};
use tibia_markers::markers::{Snapshot, TibiaMarkers};
use tibia_markers::timing::{ALERT_BACKOFF_MS, ALERT_POLL_INTERVAL_MS, SAMPLE_INTERVAL_MS};

fn showing_attack(attack_marker: Rgb) -> Snapshot {
    Snapshot {
        health_marker_one: full_green(),
        health_marker_two: full_green(),
        health_marker_three: full_green(),
        attack_marker,
    }
}

fn alerts_along(attack_markers: &[Rgb]) -> Vec<bool> {
    let mut markers = TibiaMarkers::new();
    let mut fired = Vec::new();
    for attack_marker in attack_markers {
        markers.publish(showing_attack(*attack_marker));
        fired.push(attack_cooldown_task(&markers).beep);
    }
    fired
}

fn with_attack(prev: Rgb, curr: Rgb) -> TibiaMarkers {
    let mut markers = TibiaMarkers::new();
    markers.prev_attack_marker = prev;
    markers.curr_attack_marker = curr;
    markers
}

#[test]
fn alert_fires_once_when_the_cooldown_ends() {
    let cooldown = attack_in_cooldown();
    let available = attack_available();
    assert_eq!(
        alerts_along(&[cooldown, cooldown, available, available]),
        vec![false, false, true, false]
    );
}

#[test]
fn marker_that_stays_available_fires_nothing_more() {
    let cooldown = attack_in_cooldown();
    let available = attack_available();
    let fired = alerts_along(&[cooldown, available, available, available, available, available]);
    assert_eq!(fired, vec![false, true, false, false, false, false]);
}

#[test]
fn every_end_of_a_cooldown_fires_its_own_alert() {
    let cooldown = attack_in_cooldown();
    let available = attack_available();
    let fired = alerts_along(&[
        cooldown, available, cooldown, cooldown, available, available, cooldown, available,
    ]);
    assert_eq!(fired, vec![false, true, false, false, true, false, false, true]);
    assert_eq!(fired.iter().filter(|f| **f).count(), 3);
}

#[test]
fn other_colour_between_cooldown_and_available_fires_nothing() {
    let fired = alerts_along(&[attack_in_cooldown(), Rgb(0, 0, 0), attack_available()]);
    assert_eq!(fired, vec![false, false, false]);
}

#[test]
fn fresh_markers_fire_nothing() {
    assert_eq!(
        attack_cooldown_task(&TibiaMarkers::new()),
        AlertStep { beep: false, sleep_ms: 5 }
    );
    assert_eq!(alerts_along(&[attack_available(), attack_available()]), vec![false, false]);
}

#[test]
fn alert_step_beeps_at_once_or_sleeps_for_the_poll_interval() {
    let due = with_attack(attack_in_cooldown(), attack_available());
    assert_eq!(attack_cooldown_task(&due), AlertStep { beep: true, sleep_ms: 0 });
    let reversed = with_attack(attack_available(), attack_in_cooldown());
    assert_eq!(attack_cooldown_task(&reversed), AlertStep { beep: false, sleep_ms: 5 });
    let cooling = with_attack(attack_in_cooldown(), attack_in_cooldown());
    assert_eq!(attack_cooldown_task(&cooling), AlertStep { beep: false, sleep_ms: 5 });
    let near = with_attack(attack_in_cooldown(), Rgb(56, 11, 1));
    assert_eq!(attack_cooldown_task(&near), AlertStep { beep: false, sleep_ms: 5 });
}

#[test]
fn health_markers_do_not_change_the_alert() {
    let mut markers = with_attack(attack_in_cooldown(), attack_available());
    markers.health_marker_one = Rgb(137, 0, 0);
    markers.health_marker_two = Rgb(1, 2, 3);
    assert!(attack_cooldown_task(&markers).beep);
}

#[test]
fn sampling_and_alert_intervals_have_their_values() {
    assert_eq!(SAMPLE_INTERVAL_MS, 5);
    assert_eq!(ALERT_POLL_INTERVAL_MS, 5);
    assert_eq!(ALERT_BACKOFF_MS, 0);
}

#[test]
fn alert_step_pauses_for_the_named_intervals() {
    let due = with_attack(attack_in_cooldown(), attack_available());
    assert_eq!(attack_cooldown_task(&due).sleep_ms, ALERT_BACKOFF_MS);
    let idle = with_attack(attack_available(), attack_available());
    assert_eq!(attack_cooldown_task(&idle).sleep_ms, ALERT_POLL_INTERVAL_MS);
}

#[test]
fn unchanged_state_gives_the_same_alert_decision_again() {
    let due = with_attack(attack_in_cooldown(), attack_available());
    assert_eq!(attack_cooldown_task(&due), attack_cooldown_task(&due));
    assert!(attack_cooldown_task(&due).beep);
}
