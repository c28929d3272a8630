use xr_components::handedness::{Handedness, LateralSide};
use xr_components::hands::{
    Finger, FingerJoint, FingerJointBundle, Hand, HandJointBundle, LimbJoint,
};
use xr_components::XrActive;

const FINGERS: [Finger; 5] = [
    Finger::Thumb,
    Finger::Index,
    Finger::Middle,
    Finger::Ring,
    Finger::Little,
];

const JOINTS: [FingerJoint; 5] = [
    FingerJoint::Metacarpal,
    FingerJoint::ProximalPhalanx,
    FingerJoint::IntermediatePhalanx,
    FingerJoint::DistalPhalanx,
    FingerJoint::Tip,
];

#[test]
fn finger_joint_maps_to_landmark() {
    assert_eq!(
        Hand::from_finger_joint(Finger::Thumb, FingerJoint::Metacarpal),
        Some(Hand::ThumbMetacarpal)
    );
    assert_eq!(
        Hand::from_finger_joint(Finger::Index, FingerJoint::IntermediatePhalanx),
        Some(Hand::IndexIntermediate)
    );
    assert_eq!(
        Hand::from_finger_joint(Finger::Little, FingerJoint::Tip),
        Some(Hand::LittleTip)
    );
    assert_eq!(
        Hand::from_finger_joint(Finger::Ring, FingerJoint::DistalPhalanx),
        Some(Hand::RingDistal)
    );
}

#[test]
fn thumb_has_no_intermediate_phalanx() {
    assert_eq!(
        Hand::from_finger_joint(Finger::Thumb, FingerJoint::IntermediatePhalanx),
        None
    );
}

#[test]
fn finger_joint_landmarks_are_distinct() {
    let mut seen: Vec<Hand> = Vec::new();
    for f in FINGERS {
        for j in JOINTS {
            if let Some(h) = Hand::from_finger_joint(f, j) {
                assert!(!seen.contains(&h));
                seen.push(h);
            }
        }
    }
    assert_eq!(seen.len(), 24);
    for l in [LimbJoint::Forearm, LimbJoint::Wrist, LimbJoint::Palm] {
        assert!(!seen.contains(&l.hand()));
    }
}

#[test]
fn limb_joint_landmarks() {
    assert_eq!(LimbJoint::Forearm.hand(), Hand::Forearm);
    assert_eq!(LimbJoint::Wrist.hand(), Hand::Wrist);
    assert_eq!(LimbJoint::Palm.hand(), Hand::Palm);
}

#[test]
fn hand_joint_bundle_name_and_tags() {
    let b = HandJointBundle::default(Handedness::Left, LimbJoint::Palm);
    assert_eq!(b.name, "XrHand_LeftHandedPalm");
    assert_eq!(b.xr_active, XrActive(true));
    assert_eq!(b.handedness, Handedness::Left);
    assert_eq!(b.hand_joint, LimbJoint::Palm);
    assert_eq!(b.hand, Hand::Palm);
}

#[test]
fn finger_joint_bundle_name_and_tags() {
    let b = FingerJointBundle::default(Handedness::Right, Finger::Thumb, FingerJoint::Tip);
    assert_eq!(b.name, "XrHand_RightHandedThumbTip");
    assert_eq!(b.xr_active, XrActive(true));
    assert_eq!(b.handedness, Handedness::Right);
    assert_eq!(b.finger, Finger::Thumb);
    assert_eq!(b.joint, FingerJoint::Tip);
    assert_eq!(b.hand, Hand::ThumbTip);

    let b = FingerJointBundle::default(
        Handedness::Left,
        Finger::Middle,
        FingerJoint::IntermediatePhalanx,
    );
    assert_eq!(b.name, "XrHand_LeftHandedMiddleIntermediatePhalanx");
    assert_eq!(b.hand, Hand::MiddleIntermediate);
}

#[test]
fn inward_and_outward_sides() {
    assert_eq!(Handedness::Left.inward(), LateralSide::Right);
    assert_eq!(Handedness::Left.outward(), LateralSide::Left);
    assert_eq!(Handedness::Right.inward(), LateralSide::Left);
    assert_eq!(Handedness::Right.outward(), LateralSide::Right);
}

#[test]
fn marker_names() {
    assert_eq!(Handedness::Left.type_ident(), "LeftHanded");
    assert_eq!(Handedness::Right.type_ident(), "RightHanded");
    assert_eq!(Finger::Index.type_ident(), "Index");
    assert_eq!(FingerJoint::ProximalPhalanx.type_ident(), "ProximalPhalanx");
    assert_eq!(LimbJoint::Forearm.type_ident(), "Forearm");
}
