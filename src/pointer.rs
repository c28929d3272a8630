//! Pointers for raycasting.
use vstd::prelude::*;

verus! {

/// Marks an entity whose transform is a pointer that can be used for
/// raycasting, and says what does the pointing.
#[derive(Debug, Clone, Copy, PartialEq, Eq, Hash, Structural)]
pub enum XrPointer {
    Head,
    Eye,
    Hand,
    Controller,
    Window,
    Other(usize),
}

} // verus!
