//! The body skeleton beyond the hands.
use vstd::prelude::*;

verus! {

/// Marks an entity whose transform is that of a bone of the body skeleton.
#[derive(Debug, Clone, Copy, PartialEq, Eq, Hash, Structural)]
pub struct BoneXYZ;

} // verus!
