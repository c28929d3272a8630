//! The origin of the tracked space.
use vstd::prelude::*;

verus! {

/// Marks the entity whose transform is the origin of the XR runtime: every
/// tracked entity is relative to it, and moving it moves the whole space.
#[derive(Debug, Clone, Copy, PartialEq, Eq, Hash, Structural)]
pub enum XrOrigin {
    /// An origin at the head of the person.
    View,
    /// An origin below the person, who is seated or standing in place.
    Seat,
    /// An origin at the center of a room, apart from the person.
    Room,
    /// An origin without a specified locality.
    Other,
}

} // verus!
