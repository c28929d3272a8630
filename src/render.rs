//! Mirroring rendered views.
use vstd::prelude::*;

verus! {

/// The texture axes along which a rendered view is mirrored.
#[derive(Debug, Clone, Copy, PartialEq, Eq, Hash, Structural)]
pub enum FlipDirection {
    X,
    Y,
    XY,
}

impl FlipDirection {
    /// The factors by which the horizontal and the vertical texture coordinate
    /// are scaled: `-1` mirrors the axis, `1` keeps it.
    pub open spec fn spec_axis_signs(self) -> (i8, i8) {
        match self {
            FlipDirection::X => (-1i8, 1i8),
            FlipDirection::Y => (1i8, -1i8),
            FlipDirection::XY => (-1i8, -1i8),
        }
    }

    /// Returns the factors by which the horizontal and the vertical texture
    /// coordinate are scaled.
    pub fn axis_signs(&self) -> (r: (i8, i8))
        ensures
            r == self.spec_axis_signs(),
    {
        match self {
            FlipDirection::X => (-1, 1),
            FlipDirection::Y => (1, -1),
            FlipDirection::XY => (-1, -1),
        }
    }
}

} // verus!
