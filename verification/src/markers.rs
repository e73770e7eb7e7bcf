//! Markers: the colours read at the monitored points of the window.
//!
//! A `Snapshot` holds the colours of one sampling instant. `TibiaMarkers` is
//! the state that the sampler publishes and the consumers read: the latest
//! snapshot, together with the attack marker of the snapshot before it, so
//! that a consumer can see a change of the attack marker from one cycle to
//! the next.

use vstd::prelude::*;
use crate::color::{attack_available, full_green, Rgb};
use crate::frame::{Frame, FrameView};

verus! {

/// Column of the first health marker: the first pixel of the health bar.
pub const HEALTH_MARKER_ONE_X: u32 = 24;

/// Row of the first health marker.
pub const HEALTH_MARKER_ONE_Y: u32 = 66;

/// Column of the second health marker: still green when a light heal is no
/// longer enough to restore full health.
pub const HEALTH_MARKER_TWO_X: u32 = 720;

/// Row of the second health marker.
pub const HEALTH_MARKER_TWO_Y: u32 = 66;

/// Column of the third health marker: leaves green after a moderate hit.
pub const HEALTH_MARKER_THREE_X: u32 = 980;

/// Row of the third health marker.
pub const HEALTH_MARKER_THREE_Y: u32 = 66;

/// Column of the attack marker.
pub const ATTACK_MARKER_X: u32 = 26;

/// Row of the attack marker.
pub const ATTACK_MARKER_Y: u32 = 1522;

/// The monitored point that a frame does not contain.
#[derive(Clone, Copy, Debug, PartialEq, Eq, Structural)]
pub enum MarkerError {
    FirstHealthMarker,
    SecondHealthMarker,
    ThirdHealthMarker,
    AttackMarker,
}

impl MarkerError {
    /// The text of the diagnostic for this error.
    pub open spec fn spec_message(self) -> Seq<char> {
        match self {
            MarkerError::FirstHealthMarker => "could not get pixels on first health marker"@,
            MarkerError::SecondHealthMarker => "could not get pixels on second health marker"@,
            MarkerError::ThirdHealthMarker => "could not get pixels on third health marker"@,
            MarkerError::AttackMarker => "could not get pixels on attack marker"@,
        }
    }

    /// A diagnostic that names the marker that could not be read.
    pub fn message(&self) -> (text: &'static str)
        ensures
            text@ == self.spec_message(),
    {
        match self {
            MarkerError::FirstHealthMarker => "could not get pixels on first health marker",
            MarkerError::SecondHealthMarker => "could not get pixels on second health marker",
            MarkerError::ThirdHealthMarker => "could not get pixels on third health marker",
            MarkerError::AttackMarker => "could not get pixels on attack marker",
        }
    }
}

/// The colours of all markers at one sampling instant.
#[derive(Clone, Copy, Debug, PartialEq, Eq, Structural)]
pub struct Snapshot {
    pub health_marker_one: Rgb,
    pub health_marker_two: Rgb,
    pub health_marker_three: Rgb,
    pub attack_marker: Rgb,
}

impl Snapshot {
    /// Whether a frame contains all four monitored points.
    pub open spec fn readable(frame: FrameView) -> bool {
        &&& frame.contains(HEALTH_MARKER_ONE_X as int, HEALTH_MARKER_ONE_Y as int)
        &&& frame.contains(HEALTH_MARKER_TWO_X as int, HEALTH_MARKER_TWO_Y as int)
        &&& frame.contains(HEALTH_MARKER_THREE_X as int, HEALTH_MARKER_THREE_Y as int)
        &&& frame.contains(ATTACK_MARKER_X as int, ATTACK_MARKER_Y as int)
    }

    /// The snapshot that a frame shows: the colour at each monitored point.
    /// Where the frame does not contain a monitored point, the error names
    /// the first such point in the order health one, two, three, attack.
    pub open spec fn spec_sample(frame: FrameView) -> Result<Snapshot, MarkerError> {
        if !frame.contains(HEALTH_MARKER_ONE_X as int, HEALTH_MARKER_ONE_Y as int) {
            Err(MarkerError::FirstHealthMarker)
        } else if !frame.contains(HEALTH_MARKER_TWO_X as int, HEALTH_MARKER_TWO_Y as int) {
            Err(MarkerError::SecondHealthMarker)
        } else if !frame.contains(HEALTH_MARKER_THREE_X as int, HEALTH_MARKER_THREE_Y as int) {
            Err(MarkerError::ThirdHealthMarker)
        } else if !frame.contains(ATTACK_MARKER_X as int, ATTACK_MARKER_Y as int) {
            Err(MarkerError::AttackMarker)
        } else {
            Ok(
                Snapshot {
                    health_marker_one: frame.color_at(
                        HEALTH_MARKER_ONE_X as int,
                        HEALTH_MARKER_ONE_Y as int,
                    ),
                    health_marker_two: frame.color_at(
                        HEALTH_MARKER_TWO_X as int,
                        HEALTH_MARKER_TWO_Y as int,
                    ),
                    health_marker_three: frame.color_at(
                        HEALTH_MARKER_THREE_X as int,
                        HEALTH_MARKER_THREE_Y as int,
                    ),
                    attack_marker: frame.color_at(ATTACK_MARKER_X as int, ATTACK_MARKER_Y as int),
                },
            )
        }
    }

    /// Reads the four markers from a frame. Either all four are read, or the
    /// first monitored point outside the frame is reported and no snapshot
    /// is made.
    pub fn sample(frame: &Frame) -> (r: Result<Snapshot, MarkerError>)
        ensures
            r == Snapshot::spec_sample(frame@),
            r is Ok <==> Snapshot::readable(frame@),
    {
        let health_marker_one = match frame.color_at(HEALTH_MARKER_ONE_X, HEALTH_MARKER_ONE_Y) {
            Some(color) => color,
            None => return Err(MarkerError::FirstHealthMarker),
        };
        let health_marker_two = match frame.color_at(HEALTH_MARKER_TWO_X, HEALTH_MARKER_TWO_Y) {
            Some(color) => color,
            None => return Err(MarkerError::SecondHealthMarker),
        };
        let health_marker_three = match frame.color_at(
            HEALTH_MARKER_THREE_X,
            HEALTH_MARKER_THREE_Y,
        ) {
            Some(color) => color,
            None => return Err(MarkerError::ThirdHealthMarker),
        };
        let attack_marker = match frame.color_at(ATTACK_MARKER_X, ATTACK_MARKER_Y) {
            Some(color) => color,
            None => return Err(MarkerError::AttackMarker),
        };
        Ok(Snapshot { health_marker_one, health_marker_two, health_marker_three, attack_marker })
    }
}

/// The published state: the latest snapshot and the attack marker of the
/// snapshot before it.
#[derive(Clone, Copy, Debug, PartialEq, Eq, Structural)]
pub struct TibiaMarkers {
    pub health_marker_one: Rgb,
    pub health_marker_two: Rgb,
    pub health_marker_three: Rgb,
    pub prev_attack_marker: Rgb,
    pub curr_attack_marker: Rgb,
}

impl TibiaMarkers {
    /// The state before anything was sampled: full health, attack available,
    /// and no change of the attack marker.
    pub open spec fn initial() -> TibiaMarkers {
        TibiaMarkers {
            health_marker_one: full_green(),
            health_marker_two: full_green(),
            health_marker_three: full_green(),
            prev_attack_marker: attack_available(),
            curr_attack_marker: attack_available(),
        }
    }

    /// The latest snapshot that this state holds.
    pub open spec fn spec_latest(self) -> Snapshot {
        Snapshot {
            health_marker_one: self.health_marker_one,
            health_marker_two: self.health_marker_two,
            health_marker_three: self.health_marker_three,
            attack_marker: self.curr_attack_marker,
        }
    }

    /// The state after `snapshot` is published over this one: the snapshot
    /// becomes the latest, and the attack marker that was current becomes
    /// the previous one.
    pub open spec fn spec_publish(self, snapshot: Snapshot) -> TibiaMarkers {
        TibiaMarkers {
            health_marker_one: snapshot.health_marker_one,
            health_marker_two: snapshot.health_marker_two,
            health_marker_three: snapshot.health_marker_three,
            prev_attack_marker: self.curr_attack_marker,
            curr_attack_marker: snapshot.attack_marker,
        }
    }

    /// The state after a sampling cycle on `frame`: the frame's snapshot
    /// published over this state, or this state itself when the frame does
    /// not contain every monitored point.
    pub open spec fn spec_update(self, frame: FrameView) -> TibiaMarkers {
        match Snapshot::spec_sample(frame) {
            Ok(snapshot) => self.spec_publish(snapshot),
            Err(_) => self,
        }
    }

    /// Makes the state that holds before the first sampling cycle.
    pub fn new() -> (markers: TibiaMarkers)
        ensures
            markers == TibiaMarkers::initial(),
    {
        TibiaMarkers {
            health_marker_one: full_green(),
            health_marker_two: full_green(),
            health_marker_three: full_green(),
            prev_attack_marker: attack_available(),
            curr_attack_marker: attack_available(),
        }
    }

    /// Copies out the latest snapshot.
    pub fn latest(&self) -> (snapshot: Snapshot)
        ensures
            snapshot == self.spec_latest(),
    {
        Snapshot {
            health_marker_one: self.health_marker_one,
            health_marker_two: self.health_marker_two,
            health_marker_three: self.health_marker_three,
            attack_marker: self.curr_attack_marker,
        }
    }

    /// Replaces the state by `snapshot`, keeping the attack marker that was
    /// current as the previous one.
    pub fn publish(&mut self, snapshot: Snapshot)
        ensures
            *final(self) == old(self).spec_publish(snapshot),
            final(self).spec_latest() == snapshot,
            final(self).prev_attack_marker == old(self).curr_attack_marker,
    {
        *self = TibiaMarkers {
            health_marker_one: snapshot.health_marker_one,
            health_marker_two: snapshot.health_marker_two,
            health_marker_three: snapshot.health_marker_three,
            prev_attack_marker: self.curr_attack_marker,
            curr_attack_marker: snapshot.attack_marker,
        };
    }

    /// Runs one sampling cycle on a captured frame. When the frame contains
    /// every monitored point, all markers are replaced together by the
    /// frame's colours. Otherwise the first missing point is reported and
    /// the state is left exactly as it was.
    pub fn update_markers(&mut self, frame: &Frame) -> (r: Result<(), MarkerError>)
        ensures
            *final(self) == old(self).spec_update(frame@),
            r is Ok <==> Snapshot::readable(frame@),
            match Snapshot::spec_sample(frame@) {
                Ok(snapshot) => r is Ok,
                Err(e) => r == Err::<(), MarkerError>(e),
            },
    {
        match Snapshot::sample(frame) {
            Ok(snapshot) => {
                self.publish(snapshot);
                Ok(())
            },
            Err(e) => Err(e),
        }
    }
}

} // verus!
