//! The hand skeleton: joints, fingers and the landmarks of hand tracking.
use vstd::prelude::*;

use crate::handedness::Handedness;
use crate::{XrActive, XrLocal};

verus! {

/// A landmark of a tracked hand: the forearm, the wrist, the palm, or one joint
/// of one finger. The thumb has no intermediate phalanx.
#[derive(Debug, Clone, Copy, PartialEq, Eq, Hash, Structural)]
pub enum Hand {
    Forearm,
    Wrist,
    Palm,
    ThumbMetacarpal,
    ThumbProximal,
    ThumbDistal,
    ThumbTip,
    IndexMetacarpal,
    IndexProximal,
    IndexIntermediate,
    IndexDistal,
    IndexTip,
    MiddleMetacarpal,
    MiddleProximal,
    MiddleIntermediate,
    MiddleDistal,
    MiddleTip,
    RingMetacarpal,
    RingProximal,
    RingIntermediate,
    RingDistal,
    RingTip,
    LittleMetacarpal,
    LittleProximal,
    LittleIntermediate,
    LittleDistal,
    LittleTip,
}

/// A landmark of the hand that belongs to no finger.
#[derive(Debug, Clone, Copy, PartialEq, Eq, Hash, Structural)]
pub enum LimbJoint {
    Forearm,
    Wrist,
    Palm,
}

/// A finger of the hand.
#[derive(Debug, Clone, Copy, PartialEq, Eq, Hash, Structural)]
pub enum Finger {
    Thumb,
    Index,
    Middle,
    Ring,
    Little,
}

/// A joint of a finger, from the base of the finger to its tip.
#[derive(Debug, Clone, Copy, PartialEq, Eq, Hash, Structural)]
pub enum FingerJoint {
    Metacarpal,
    ProximalPhalanx,
    IntermediatePhalanx,
    DistalPhalanx,
    Tip,
}

/// The landmark at joint `joint` of finger `finger`, if that finger has that
/// joint.
pub open spec fn finger_joint_hand(finger: Finger, joint: FingerJoint) -> Option<Hand> {
    match (finger, joint) {
        (Finger::Thumb, FingerJoint::Metacarpal) => Some(Hand::ThumbMetacarpal),
        (Finger::Thumb, FingerJoint::ProximalPhalanx) => Some(Hand::ThumbProximal),
        (Finger::Thumb, FingerJoint::IntermediatePhalanx) => None,
        (Finger::Thumb, FingerJoint::DistalPhalanx) => Some(Hand::ThumbDistal),
        (Finger::Thumb, FingerJoint::Tip) => Some(Hand::ThumbTip),
        (Finger::Index, FingerJoint::Metacarpal) => Some(Hand::IndexMetacarpal),
        (Finger::Index, FingerJoint::ProximalPhalanx) => Some(Hand::IndexProximal),
        (Finger::Index, FingerJoint::IntermediatePhalanx) => Some(Hand::IndexIntermediate),
        (Finger::Index, FingerJoint::DistalPhalanx) => Some(Hand::IndexDistal),
        (Finger::Index, FingerJoint::Tip) => Some(Hand::IndexTip),
        (Finger::Middle, FingerJoint::Metacarpal) => Some(Hand::MiddleMetacarpal),
        (Finger::Middle, FingerJoint::ProximalPhalanx) => Some(Hand::MiddleProximal),
        (Finger::Middle, FingerJoint::IntermediatePhalanx) => Some(Hand::MiddleIntermediate),
        (Finger::Middle, FingerJoint::DistalPhalanx) => Some(Hand::MiddleDistal),
        (Finger::Middle, FingerJoint::Tip) => Some(Hand::MiddleTip),
        (Finger::Ring, FingerJoint::Metacarpal) => Some(Hand::RingMetacarpal),
        (Finger::Ring, FingerJoint::ProximalPhalanx) => Some(Hand::RingProximal),
        (Finger::Ring, FingerJoint::IntermediatePhalanx) => Some(Hand::RingIntermediate),
        (Finger::Ring, FingerJoint::DistalPhalanx) => Some(Hand::RingDistal),
        (Finger::Ring, FingerJoint::Tip) => Some(Hand::RingTip),
        (Finger::Little, FingerJoint::Metacarpal) => Some(Hand::LittleMetacarpal),
        (Finger::Little, FingerJoint::ProximalPhalanx) => Some(Hand::LittleProximal),
        (Finger::Little, FingerJoint::IntermediatePhalanx) => Some(Hand::LittleIntermediate),
        (Finger::Little, FingerJoint::DistalPhalanx) => Some(Hand::LittleDistal),
        (Finger::Little, FingerJoint::Tip) => Some(Hand::LittleTip),
    }
}

/// Whether finger `finger` has joint `joint`: every finger has every joint,
/// but the thumb has no intermediate phalanx.
pub open spec fn finger_has_joint(finger: Finger, joint: FingerJoint) -> bool {
    !(finger == Finger::Thumb && joint == FingerJoint::IntermediatePhalanx)
}

impl LimbJoint {
    /// The landmark of this joint.
    pub open spec fn spec_hand(self) -> Hand {
        match self {
            LimbJoint::Forearm => Hand::Forearm,
            LimbJoint::Wrist => Hand::Wrist,
            LimbJoint::Palm => Hand::Palm,
        }
    }

    /// The name of the marker that stands for this joint in entity names.
    pub open spec fn ident(self) -> Seq<char> {
        match self {
            LimbJoint::Forearm => "Forearm"@,
            LimbJoint::Wrist => "Wrist"@,
            LimbJoint::Palm => "Palm"@,
        }
    }

    /// Returns the landmark of this joint.
    pub fn hand(&self) -> (r: Hand)
        ensures
            r == self.spec_hand(),
    {
        match self {
            LimbJoint::Forearm => Hand::Forearm,
            LimbJoint::Wrist => Hand::Wrist,
            LimbJoint::Palm => Hand::Palm,
        }
    }

    /// Returns the name of the marker that stands for this joint in entity names.
    pub fn type_ident(&self) -> (r: &'static str)
        ensures
            r@ == self.ident(),
    {
        match self {
            LimbJoint::Forearm => "Forearm",
            LimbJoint::Wrist => "Wrist",
            LimbJoint::Palm => "Palm",
        }
    }
}

impl Finger {
    /// The name of the marker that stands for this finger in entity names.
    pub open spec fn ident(self) -> Seq<char> {
        match self {
            Finger::Thumb => "Thumb"@,
            Finger::Index => "Index"@,
            Finger::Middle => "Middle"@,
            Finger::Ring => "Ring"@,
            Finger::Little => "Little"@,
        }
    }

    /// Returns the name of the marker that stands for this finger in entity names.
    pub fn type_ident(&self) -> (r: &'static str)
        ensures
            r@ == self.ident(),
    {
        match self {
            Finger::Thumb => "Thumb",
            Finger::Index => "Index",
            Finger::Middle => "Middle",
            Finger::Ring => "Ring",
            Finger::Little => "Little",
        }
    }
}

impl FingerJoint {
    /// The name of the marker that stands for this joint in entity names.
    pub open spec fn ident(self) -> Seq<char> {
        match self {
            FingerJoint::Metacarpal => "Metacarpal"@,
            FingerJoint::ProximalPhalanx => "ProximalPhalanx"@,
            FingerJoint::IntermediatePhalanx => "IntermediatePhalanx"@,
            FingerJoint::DistalPhalanx => "DistalPhalanx"@,
            FingerJoint::Tip => "Tip"@,
        }
    }

    /// Returns the name of the marker that stands for this joint in entity names.
    pub fn type_ident(&self) -> (r: &'static str)
        ensures
            r@ == self.ident(),
    {
        match self {
            FingerJoint::Metacarpal => "Metacarpal",
            FingerJoint::ProximalPhalanx => "ProximalPhalanx",
            FingerJoint::IntermediatePhalanx => "IntermediatePhalanx",
            FingerJoint::DistalPhalanx => "DistalPhalanx",
            FingerJoint::Tip => "Tip",
        }
    }
}

impl Hand {
    /// The joint that is this landmark, if it belongs to no finger.
    pub open spec fn spec_limb_joint(self) -> Option<LimbJoint> {
        match self {
            Hand::Forearm => Some(LimbJoint::Forearm),
            Hand::Wrist => Some(LimbJoint::Wrist),
            Hand::Palm => Some(LimbJoint::Palm),
            _ => None,
        }
    }

    /// The finger this landmark is on, if any.
    pub open spec fn spec_finger(self) -> Option<Finger> {
        match self {
            Hand::ThumbMetacarpal => Some(Finger::Thumb),
            Hand::ThumbProximal => Some(Finger::Thumb),
            Hand::ThumbDistal => Some(Finger::Thumb),
            Hand::ThumbTip => Some(Finger::Thumb),
            Hand::IndexMetacarpal => Some(Finger::Index),
            Hand::IndexProximal => Some(Finger::Index),
            Hand::IndexIntermediate => Some(Finger::Index),
            Hand::IndexDistal => Some(Finger::Index),
            Hand::IndexTip => Some(Finger::Index),
            Hand::MiddleMetacarpal => Some(Finger::Middle),
            Hand::MiddleProximal => Some(Finger::Middle),
            Hand::MiddleIntermediate => Some(Finger::Middle),
            Hand::MiddleDistal => Some(Finger::Middle),
            Hand::MiddleTip => Some(Finger::Middle),
            Hand::RingMetacarpal => Some(Finger::Ring),
            Hand::RingProximal => Some(Finger::Ring),
            Hand::RingIntermediate => Some(Finger::Ring),
            Hand::RingDistal => Some(Finger::Ring),
            Hand::RingTip => Some(Finger::Ring),
            Hand::LittleMetacarpal => Some(Finger::Little),
            Hand::LittleProximal => Some(Finger::Little),
            Hand::LittleIntermediate => Some(Finger::Little),
            Hand::LittleDistal => Some(Finger::Little),
            Hand::LittleTip => Some(Finger::Little),
            _ => None,
        }
    }

    /// The finger joint this landmark is, if it is on a finger.
    pub open spec fn spec_finger_joint(self) -> Option<FingerJoint> {
        match self {
            Hand::ThumbMetacarpal => Some(FingerJoint::Metacarpal),
            Hand::ThumbProximal => Some(FingerJoint::ProximalPhalanx),
            Hand::ThumbDistal => Some(FingerJoint::DistalPhalanx),
            Hand::ThumbTip => Some(FingerJoint::Tip),
            Hand::IndexMetacarpal => Some(FingerJoint::Metacarpal),
            Hand::IndexProximal => Some(FingerJoint::ProximalPhalanx),
            Hand::IndexIntermediate => Some(FingerJoint::IntermediatePhalanx),
            Hand::IndexDistal => Some(FingerJoint::DistalPhalanx),
            Hand::IndexTip => Some(FingerJoint::Tip),
            Hand::MiddleMetacarpal => Some(FingerJoint::Metacarpal),
            Hand::MiddleProximal => Some(FingerJoint::ProximalPhalanx),
            Hand::MiddleIntermediate => Some(FingerJoint::IntermediatePhalanx),
            Hand::MiddleDistal => Some(FingerJoint::DistalPhalanx),
            Hand::MiddleTip => Some(FingerJoint::Tip),
            Hand::RingMetacarpal => Some(FingerJoint::Metacarpal),
            Hand::RingProximal => Some(FingerJoint::ProximalPhalanx),
            Hand::RingIntermediate => Some(FingerJoint::IntermediatePhalanx),
            Hand::RingDistal => Some(FingerJoint::DistalPhalanx),
            Hand::RingTip => Some(FingerJoint::Tip),
            Hand::LittleMetacarpal => Some(FingerJoint::Metacarpal),
            Hand::LittleProximal => Some(FingerJoint::ProximalPhalanx),
            Hand::LittleIntermediate => Some(FingerJoint::IntermediatePhalanx),
            Hand::LittleDistal => Some(FingerJoint::DistalPhalanx),
            Hand::LittleTip => Some(FingerJoint::Tip),
            _ => None,
        }
    }

    /// Returns the landmark at joint `joint` of finger `finger`, or `None`
    /// where the finger has no such joint (the thumb's intermediate phalanx).
    pub fn from_finger_joint(finger: Finger, joint: FingerJoint) -> (r: Option<Hand>)
        ensures
            r == finger_joint_hand(finger, joint),
            r is Some <==> finger_has_joint(finger, joint),
    {
        match finger {
            Finger::Thumb => match joint {
                FingerJoint::Metacarpal => Some(Hand::ThumbMetacarpal),
                FingerJoint::ProximalPhalanx => Some(Hand::ThumbProximal),
                FingerJoint::IntermediatePhalanx => None,
                FingerJoint::DistalPhalanx => Some(Hand::ThumbDistal),
                FingerJoint::Tip => Some(Hand::ThumbTip),
            },
            Finger::Index => match joint {
                FingerJoint::Metacarpal => Some(Hand::IndexMetacarpal),
                FingerJoint::ProximalPhalanx => Some(Hand::IndexProximal),
                FingerJoint::IntermediatePhalanx => Some(Hand::IndexIntermediate),
                FingerJoint::DistalPhalanx => Some(Hand::IndexDistal),
                FingerJoint::Tip => Some(Hand::IndexTip),
            },
            Finger::Middle => match joint {
                FingerJoint::Metacarpal => Some(Hand::MiddleMetacarpal),
                FingerJoint::ProximalPhalanx => Some(Hand::MiddleProximal),
                FingerJoint::IntermediatePhalanx => Some(Hand::MiddleIntermediate),
                FingerJoint::DistalPhalanx => Some(Hand::MiddleDistal),
                FingerJoint::Tip => Some(Hand::MiddleTip),
            },
            Finger::Ring => match joint {
                FingerJoint::Metacarpal => Some(Hand::RingMetacarpal),
                FingerJoint::ProximalPhalanx => Some(Hand::RingProximal),
                FingerJoint::IntermediatePhalanx => Some(Hand::RingIntermediate),
                FingerJoint::DistalPhalanx => Some(Hand::RingDistal),
                FingerJoint::Tip => Some(Hand::RingTip),
            },
            Finger::Little => match joint {
                FingerJoint::Metacarpal => Some(Hand::LittleMetacarpal),
                FingerJoint::ProximalPhalanx => Some(Hand::LittleProximal),
                FingerJoint::IntermediatePhalanx => Some(Hand::LittleIntermediate),
                FingerJoint::DistalPhalanx => Some(Hand::LittleDistal),
                FingerJoint::Tip => Some(Hand::LittleTip),
            },
        }
    }
}

/// Each landmark on a finger is the image of exactly one (finger, joint) pair:
/// the pair maps to a landmark exactly when the landmark's finger and joint are
/// that pair.
pub proof fn lemma_finger_joint_hand_inverse(finger: Finger, joint: FingerJoint, hand: Hand)
    ensures
        finger_joint_hand(finger, joint) == Some(hand) <==> (hand.spec_finger() == Some(finger)
            && hand.spec_finger_joint() == Some(joint)),
{
}

/// Two (finger, joint) pairs that map to the same landmark are the same pair.
pub proof fn lemma_finger_joint_hand_injective(
    f1: Finger,
    j1: FingerJoint,
    f2: Finger,
    j2: FingerJoint,
)
    requires
        finger_joint_hand(f1, j1) is Some,
        finger_joint_hand(f1, j1) == finger_joint_hand(f2, j2),
    ensures
        f1 == f2,
        j1 == j2,
{
    let h = finger_joint_hand(f1, j1).unwrap();
    lemma_finger_joint_hand_inverse(f1, j1, h);
    lemma_finger_joint_hand_inverse(f2, j2, h);
}

/// Every landmark comes from exactly one source: either from one joint that
/// belongs to no finger, or from one joint of one finger.
pub proof fn lemma_hand_has_one_source(hand: Hand)
    ensures
        hand.spec_limb_joint() is Some <==> hand.spec_finger() is None,
        hand.spec_finger() is Some <==> hand.spec_finger_joint() is Some,
        hand.spec_limb_joint() is Some ==> hand.spec_limb_joint().unwrap().spec_hand() == hand,
        hand.spec_finger() is Some ==> finger_joint_hand(
            hand.spec_finger().unwrap(),
            hand.spec_finger_joint().unwrap(),
        ) == Some(hand),
        forall|l: LimbJoint| #[trigger] l.spec_hand() == hand ==> hand.spec_limb_joint() == Some(l),
{
}

/// The components of an entity that stands for a hand joint that belongs to
/// no finger.
#[derive(Debug, Clone, PartialEq, Eq)]
pub struct HandJointBundle {
    pub name: String,
    pub xr_local: XrLocal,
    pub xr_active: XrActive,
    pub handedness: Handedness,
    pub hand_joint: LimbJoint,
    pub hand: Hand,
}

impl HandJointBundle {
    /// The components of joint `hand_joint` of the `handedness` hand: named
    /// `XrHand_` followed by the side's and the joint's marker names, local,
    /// active, and tagged with the joint's landmark.
    pub fn default(handedness: Handedness, hand_joint: LimbJoint) -> (r: HandJointBundle)
        ensures
            r.name@ == "XrHand_"@ + handedness.ident() + hand_joint.ident(),
            r.xr_active == XrActive(true),
            r.handedness == handedness,
            r.hand_joint == hand_joint,
            r.hand == hand_joint.spec_hand(),
    {
        let mut name = String::from_str("XrHand_");
        name.append(handedness.type_ident());
        name.append(hand_joint.type_ident());
        HandJointBundle {
            name,
            xr_local: XrLocal,
            xr_active: XrActive(true),
            handedness,
            hand_joint,
            hand: hand_joint.hand(),
        }
    }
}

/// The components of an entity that stands for one joint of one finger.
#[derive(Debug, Clone, PartialEq, Eq)]
pub struct FingerJointBundle {
    pub name: String,
    pub xr_local: XrLocal,
    pub xr_active: XrActive,
    pub handedness: Handedness,
    pub finger: Finger,
    pub joint: FingerJoint,
    pub hand: Hand,
}

impl FingerJointBundle {
    /// The components of joint `joint` of finger `finger` of the `handedness`
    /// hand: named `XrHand_` followed by the side's, the finger's and the
    /// joint's marker names, local, active, and tagged with the landmark.
    pub fn default(handedness: Handedness, finger: Finger, joint: FingerJoint) -> (r: FingerJointBundle)
        requires
            finger_has_joint(finger, joint),
        ensures
            r.name@ == "XrHand_"@ + handedness.ident() + finger.ident() + joint.ident(),
            r.xr_active == XrActive(true),
            r.handedness == handedness,
            r.finger == finger,
            r.joint == joint,
            Some(r.hand) == finger_joint_hand(finger, joint),
    {
        let mut name = String::from_str("XrHand_");
        name.append(handedness.type_ident());
        name.append(finger.type_ident());
        name.append(joint.type_ident());
        let hand = Hand::from_finger_joint(finger, joint).unwrap();
        FingerJointBundle {
            name,
            xr_local: XrLocal,
            xr_active: XrActive(true),
            handedness,
            finger,
            joint,
            hand,
        }
    }
}

} // verus!
