//! Left and right sides of the body.
use vstd::prelude::*;

verus! {

/// The side of the body an entity belongs to.
#[derive(Debug, Clone, Copy, PartialEq, Eq, Hash, Structural)]
pub enum Handedness {
    Right,
    Left,
}

/// A lateral direction, relative to the entity's own transform.
#[derive(Debug, Clone, Copy, PartialEq, Eq, Hash, Structural)]
pub enum LateralSide {
    Left,
    Right,
}

impl Handedness {
    /// The name of the marker that stands for this side in entity names.
    pub open spec fn ident(self) -> Seq<char> {
        match self {
            Handedness::Left => "LeftHanded"@,
            Handedness::Right => "RightHanded"@,
        }
    }

    /// The lateral direction that points away from the body's midline.
    pub open spec fn outward_side(self) -> LateralSide {
        match self {
            Handedness::Left => LateralSide::Left,
            Handedness::Right => LateralSide::Right,
        }
    }

    /// The lateral direction that points towards the body's midline.
    pub open spec fn inward_side(self) -> LateralSide {
        match self {
            Handedness::Left => LateralSide::Right,
            Handedness::Right => LateralSide::Left,
        }
    }

    /// Returns the name of the marker that stands for this side in entity names.
    pub fn type_ident(&self) -> (r: &'static str)
        ensures
            r@ == self.ident(),
    {
        match self {
            Handedness::Left => "LeftHanded",
            Handedness::Right => "RightHanded",
        }
    }

    /// Returns the lateral direction that points towards the body's midline:
    /// right for the left side, left for the right side.
    pub fn inward(&self) -> (r: LateralSide)
        ensures
            r == self.inward_side(),
    {
        match self {
            Handedness::Left => LateralSide::Right,
            Handedness::Right => LateralSide::Left,
        }
    }

    /// Returns the lateral direction that points away from the body's midline:
    /// left for the left side, right for the right side.
    pub fn outward(&self) -> (r: LateralSide)
        ensures
            r == self.outward_side(),
    {
        match self {
            Handedness::Left => LateralSide::Left,
            Handedness::Right => LateralSide::Right,
        }
    }
}

/// On either side, the inward and the outward directions are opposite, and the
/// two sides mirror each other: one side's inward direction is the other
/// side's outward direction.
pub proof fn lemma_inward_outward_mirror(h: Handedness)
    ensures
        h.inward_side() != h.outward_side(),
        h.inward_side() == match h {
            Handedness::Left => Handedness::Right,
            Handedness::Right => Handedness::Left,
        }.outward_side(),
{
}

} // verus!
