use xr_components::hands::{Finger, FingerJoint};
use xr_components::render::FlipDirection;
use xr_components::systems::{palm_update, supports_palm, PalmUpdate};

#[test]
fn palm_supporting_joints() {
    assert!(supports_palm(Finger::Index, FingerJoint::Metacarpal));
    assert!(supports_palm(Finger::Middle, FingerJoint::ProximalPhalanx));
    assert!(supports_palm(Finger::Ring, FingerJoint::Metacarpal));
    assert!(!supports_palm(Finger::Thumb, FingerJoint::Metacarpal));
    assert!(!supports_palm(Finger::Little, FingerJoint::ProximalPhalanx));
    assert!(!supports_palm(Finger::Index, FingerJoint::Tip));
}

#[test]
fn palm_update_decisions() {
    let all = vec![true, true, true];
    assert_eq!(palm_update(Some(true), &all, 0), PalmUpdate::Spawn);
    assert_eq!(palm_update(Some(true), &all, 1), PalmUpdate::Move);
    assert_eq!(palm_update(Some(true), &all, 4), PalmUpdate::DespawnExtra(3));
    assert_eq!(palm_update(Some(false), &all, 1), PalmUpdate::Skip);
    assert_eq!(palm_update(None, &all, 1), PalmUpdate::Skip);
    assert_eq!(palm_update(Some(true), &vec![], 1), PalmUpdate::Skip);
    assert_eq!(palm_update(Some(true), &vec![true, false], 0), PalmUpdate::Skip);
}

#[test]
fn flip_axis_signs() {
    assert_eq!(FlipDirection::X.axis_signs(), (-1, 1));
    assert_eq!(FlipDirection::Y.axis_signs(), (1, -1));
    assert_eq!(FlipDirection::XY.axis_signs(), (-1, -1));
}
