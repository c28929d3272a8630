//! Decisions of the systems that maintain hand entities.
use vstd::prelude::*;

use crate::hands::{Finger, FingerJoint};

verus! {

/// Whether joint `joint` of finger `finger` is one of the joints that the palm
/// is placed from: the metacarpals and proximal phalanges of the index,
/// middle and ring fingers.
pub open spec fn spec_supports_palm(finger: Finger, joint: FingerJoint) -> bool {
    finger != Finger::Thumb && finger != Finger::Little && (joint == FingerJoint::Metacarpal
        || joint == FingerJoint::ProximalPhalanx)
}

/// Returns whether joint `joint` of finger `finger` is one of the joints that
/// the palm is placed from.
pub fn supports_palm(finger: Finger, joint: FingerJoint) -> (r: bool)
    ensures
        r == spec_supports_palm(finger, joint),
{
    let on_palm_finger = match finger {
        Finger::Index | Finger::Middle | Finger::Ring => true,
        Finger::Thumb | Finger::Little => false,
    };
    let at_base = match joint {
        FingerJoint::Metacarpal | FingerJoint::ProximalPhalanx => true,
        _ => false,
    };
    on_palm_finger && at_base
}

/// What to do to the palm entities of one hand.
#[derive(Debug, Clone, Copy, PartialEq, Eq, Hash, Structural)]
pub enum PalmUpdate {
    /// Leave the palm entities as they are.
    Skip,
    /// Spawn a palm entity at the computed place, as a child of the wrist.
    Spawn,
    /// Move the one palm entity to the computed place and mark it active.
    Move,
    /// Keep the first palm entity and despawn this many others.
    DespawnExtra(usize),
}

/// Whether the palm can be placed: the hand has exactly one wrist, which is
/// active, and at least one supporting joint, all of them active.
pub open spec fn spec_palm_placeable(wrist_active: Option<bool>, joints_active: Seq<bool>) -> bool {
    wrist_active == Some(true) && joints_active.len() > 0 && forall|i: int|
        0 <= i < joints_active.len() ==> #[trigger] joints_active[i]
}

/// The update of the palm entities of a hand, given whether its one wrist is
/// active (`None` unless the hand has exactly one wrist), whether each of its
/// supporting joints is active, and how many palm entities it has.
pub open spec fn spec_palm_update(
    wrist_active: Option<bool>,
    joints_active: Seq<bool>,
    palm_count: usize,
) -> PalmUpdate {
    if !spec_palm_placeable(wrist_active, joints_active) {
        PalmUpdate::Skip
    } else if palm_count == 0 {
        PalmUpdate::Spawn
    } else if palm_count == 1 {
        PalmUpdate::Move
    } else {
        PalmUpdate::DespawnExtra((palm_count - 1) as usize)
    }
}

/// Returns the update of the palm entities of a hand: when the palm can be
/// placed, a missing palm is spawned, a single one is moved, and of several
/// all but the first are despawned; otherwise nothing changes.
pub fn palm_update(wrist_active: Option<bool>, joints_active: &Vec<bool>, palm_count: usize) -> (r:
    PalmUpdate)
    ensures
        r == spec_palm_update(wrist_active, joints_active@, palm_count),
{
    let mut all_active = true;
    let mut i: usize = 0;
    while i < joints_active.len()
        invariant
            i <= joints_active@.len(),
            all_active == forall|k: int| 0 <= k < i ==> #[trigger] joints_active@[k],
        decreases joints_active.len() - i,
    {
        all_active = all_active && joints_active[i];
        i = i + 1;
    }
    let wrist_ok = match wrist_active {
        Some(active) => active,
        None => false,
    };
    if !(wrist_ok && joints_active.len() > 0 && all_active) {
        PalmUpdate::Skip
    } else if palm_count == 0 {
        PalmUpdate::Spawn
    } else if palm_count == 1 {
        PalmUpdate::Move
    } else {
        PalmUpdate::DespawnExtra(palm_count - 1)
    }
}

} // verus!
