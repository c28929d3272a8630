//! Controllers held in a hand or standing on their own.
use vstd::prelude::*;

use crate::handedness::Handedness;
use crate::naming::{append_decimal, decimal};
use crate::tracked_object::XrTrackedObject;
use crate::{XrActive, XrLocal};

verus! {

/// Identifies a controller: the one in the right hand, the one in the left
/// hand, or another one by index.
#[derive(Debug, Clone, Copy, PartialEq, Eq, Hash, Structural)]
pub enum XrController {
    Right,
    Left,
    Other(u8),
}

impl XrController {
    /// The controller held on side `handedness`.
    pub open spec fn spec_from_handedness(handedness: Handedness) -> XrController {
        match handedness {
            Handedness::Left => XrController::Left,
            Handedness::Right => XrController::Right,
        }
    }

    /// Returns the controller held on side `handedness`.
    pub fn from_handedness(handedness: Handedness) -> (r: XrController)
        ensures
            r == Self::spec_from_handedness(handedness),
    {
        match handedness {
            Handedness::Left => XrController::Left,
            Handedness::Right => XrController::Right,
        }
    }
}

/// The components of an entity that stands for a controller held in a hand.
#[derive(Debug, Clone, PartialEq, Eq)]
pub struct XrControllerBundle {
    pub name: String,
    pub xr_local: XrLocal,
    pub xr_active: XrActive,
    pub handedness: Handedness,
    pub xr_controller: XrController,
    pub xr_tracked_object: XrTrackedObject,
}

impl XrControllerBundle {
    /// The components of the controller in the `handedness` hand, tracked as
    /// object `index`: named `XrController_` followed by the side's marker
    /// name, local and active.
    pub fn default(handedness: Handedness, index: u8) -> (r: XrControllerBundle)
        ensures
            r.name@ == "XrController_"@ + handedness.ident(),
            r.xr_active == XrActive(true),
            r.handedness == handedness,
            r.xr_controller == XrController::spec_from_handedness(handedness),
            r.xr_tracked_object == XrTrackedObject(index),
    {
        let mut name = String::from_str("XrController_");
        name.append(handedness.type_ident());
        XrControllerBundle {
            name,
            xr_local: XrLocal,
            xr_active: XrActive(true),
            handedness,
            xr_controller: XrController::from_handedness(handedness),
            xr_tracked_object: XrTrackedObject(index),
        }
    }
}

/// The components of an entity that stands for a controller held in no hand.
#[derive(Debug, Clone, PartialEq, Eq)]
pub struct XrControllerHandlessBundle {
    pub name: String,
    pub xr_local: XrLocal,
    pub xr_active: XrActive,
    pub xr_controller: XrController,
    pub xr_tracked_object: XrTrackedObject,
}

impl XrControllerHandlessBundle {
    /// The components of the other controller `index`, tracked as object
    /// `index`: named `XrController_Other(`, the index in decimal and `)`,
    /// local and active.
    pub fn default(index: u8) -> (r: XrControllerHandlessBundle)
        ensures
            r.name@ == "XrController_Other("@ + decimal(index as nat) + ")"@,
            r.xr_active == XrActive(true),
            r.xr_controller == XrController::Other(index),
            r.xr_tracked_object == XrTrackedObject(index),
    {
        let mut name = String::from_str("XrController_Other(");
        append_decimal(&mut name, index);
        name.append(")");
        XrControllerHandlessBundle {
            name,
            xr_local: XrLocal,
            xr_active: XrActive(true),
            xr_controller: XrController::Other(index),
            xr_tracked_object: XrTrackedObject(index),
        }
    }
}

} // verus!
