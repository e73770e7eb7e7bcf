//! The cooldown alert: an audible signal when the attack becomes available
//! again.
//!
//! The alert is edge-triggered. It is due in a state whose previous attack
//! marker shows the cooldown and whose current attack marker shows the
//! attack as available, and in no other state. While the marker merely stays
//! available nothing is due.
//!
//! A simpler policy would take the sight of the cooldown itself as the
//! signal and beep after a fixed wait about as long as the cooldown. It
//! never observes the end of the cooldown, so it is not what is done here.

use vstd::prelude::*;
use crate::color::{attack_available, attack_in_cooldown, Rgb};
use crate::markers::{Snapshot, TibiaMarkers};
use crate::timing::{ALERT_BACKOFF_MS, ALERT_POLL_INTERVAL_MS};

verus! {

/// What the alert consumer does next: beep or not, then sleep.
#[derive(Clone, Copy, Debug, PartialEq, Eq, Structural)]
pub struct AlertStep {
    /// Whether to sound the alert.
    pub beep: bool,
    /// How long to sleep afterwards, in milliseconds.
    pub sleep_ms: u64,
}

/// Whether the alert is due in a state: the attack marker went from
/// cooldown to available between the previous snapshot and the current one.
pub open spec fn alert_due(markers: TibiaMarkers) -> bool {
    markers.prev_attack_marker == attack_in_cooldown() && markers.curr_attack_marker
        == attack_available()
}

/// Decides the next step of the alert consumer: beep when the alert is due
/// and pause for the backoff, else sleep for the poll interval.
///
/// The decision reads the published state alone and keeps no memory of
/// earlier polls: polled twice on one unchanged state in which the alert is
/// due, it says to beep both times.
pub fn attack_cooldown_task(markers: &TibiaMarkers) -> (step: AlertStep)
    ensures
        step.beep == alert_due(*markers),
        step.sleep_ms == if alert_due(*markers) {
            ALERT_BACKOFF_MS
        } else {
            ALERT_POLL_INTERVAL_MS
        },
{
    if markers.prev_attack_marker == attack_in_cooldown() && markers.curr_attack_marker
        == attack_available() {
        AlertStep { beep: true, sleep_ms: ALERT_BACKOFF_MS }
    } else {
        AlertStep { beep: false, sleep_ms: ALERT_POLL_INTERVAL_MS }
    }
}

/// The state reached from `start` when `snapshots` are published in order.
pub open spec fn state_after(start: TibiaMarkers, snapshots: Seq<Snapshot>) -> TibiaMarkers
    decreases snapshots.len(),
{
    if snapshots.len() == 0 {
        start
    } else {
        state_after(start, snapshots.drop_last()).spec_publish(snapshots.last())
    }
}

/// Whether the alert is due in the state reached once the snapshot at index
/// `i` has been published.
pub open spec fn alert_at(start: TibiaMarkers, snapshots: Seq<Snapshot>, i: int) -> bool {
    alert_due(state_after(start, snapshots.take(i + 1)))
}

/// The attack marker that was current just before the snapshot at index `i`
/// was published.
pub open spec fn attack_before(start: TibiaMarkers, snapshots: Seq<Snapshot>, i: int) -> Rgb {
    if i == 0 {
        start.curr_attack_marker
    } else {
        snapshots[i - 1].attack_marker
    }
}

/// Whether the snapshot at index `i` completes a change of the attack marker
/// from cooldown to available.
pub open spec fn transition_at(start: TibiaMarkers, snapshots: Seq<Snapshot>, i: int) -> bool {
    attack_before(start, snapshots, i) == attack_in_cooldown() && snapshots[i].attack_marker
        == attack_available()
}

/// Number of states, among those reached by publishing `snapshots` one by
/// one from `start`, in which the alert is due.
pub open spec fn alert_count(start: TibiaMarkers, snapshots: Seq<Snapshot>) -> nat
    decreases snapshots.len(),
{
    if snapshots.len() == 0 {
        0
    } else {
        alert_count(start, snapshots.drop_last()) + if alert_due(state_after(start, snapshots)) {
            1nat
        } else {
            0nat
        }
    }
}

/// Number of changes of the attack marker from cooldown to available along
/// `snapshots`, the first of them counted against the attack marker that was
/// current in `start`.
pub open spec fn transition_count(start: TibiaMarkers, snapshots: Seq<Snapshot>) -> nat
    decreases snapshots.len(),
{
    if snapshots.len() == 0 {
        0
    } else {
        transition_count(start, snapshots.drop_last()) + if transition_at(
            start,
            snapshots,
            snapshots.len() - 1,
        ) {
            1nat
        } else {
            0nat
        }
    }
}

/// After at least one publish, the state holds the attack marker of the last
/// snapshot as current and the one that was current before it as previous.
pub proof fn lemma_attack_markers_after(start: TibiaMarkers, snapshots: Seq<Snapshot>)
    requires
        snapshots.len() > 0,
    ensures
        state_after(start, snapshots).curr_attack_marker == snapshots.last().attack_marker,
        state_after(start, snapshots).prev_attack_marker == attack_before(
            start,
            snapshots,
            snapshots.len() - 1,
        ),
        state_after(start, snapshots).spec_latest() == snapshots.last(),
    decreases snapshots.len(),
{
    let earlier = snapshots.drop_last();
    if earlier.len() > 0 {
        lemma_attack_markers_after(start, earlier);
        assert(earlier.last() == snapshots[snapshots.len() - 2]);
    } else {
        assert(state_after(start, earlier) == start);
    }
}

/// The alert is due after a publish exactly when that publish completes a
/// change of the attack marker from cooldown to available.
pub proof fn lemma_alert_iff_transition(start: TibiaMarkers, snapshots: Seq<Snapshot>, i: int)
    requires
        0 <= i < snapshots.len(),
    ensures
        alert_at(start, snapshots, i) <==> transition_at(start, snapshots, i),
{
    let prefix = snapshots.take(i + 1);
    lemma_attack_markers_after(start, prefix);
    assert(prefix.last() == snapshots[i]);
    if i > 0 {
        assert(prefix[i - 1] == snapshots[i - 1]);
    }
}

/// Once the alert was due after the publish at index `i`, it is not due
/// again after a later publish at index `j` unless a snapshot in between
/// showed the cooldown: a marker that stays available fires nothing more.
pub proof fn lemma_no_alert_without_new_cooldown(
    start: TibiaMarkers,
    snapshots: Seq<Snapshot>,
    i: int,
    j: int,
)
    requires
        0 <= i < j < snapshots.len(),
        alert_at(start, snapshots, i),
        forall|k: int| i < k < j ==> snapshots[k].attack_marker != attack_in_cooldown(),
    ensures
        !alert_at(start, snapshots, j),
{
    lemma_alert_iff_transition(start, snapshots, i);
    lemma_alert_iff_transition(start, snapshots, j);
}

/// Exactly one alert is due for each change of the attack marker from
/// cooldown to available: along any sequence of publishes there are as many
/// states with the alert due as there are such changes.
pub proof fn lemma_one_alert_per_transition(start: TibiaMarkers, snapshots: Seq<Snapshot>)
    ensures
        alert_count(start, snapshots) == transition_count(start, snapshots),
    decreases snapshots.len(),
{
    if snapshots.len() > 0 {
        lemma_one_alert_per_transition(start, snapshots.drop_last());
        lemma_alert_iff_transition(start, snapshots, snapshots.len() - 1);
        assert(snapshots.take(snapshots.len() as int) == snapshots);
    }
}

} // verus!
