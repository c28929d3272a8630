//! Tracked objects such as headsets, controllers or pucks.
use vstd::prelude::*;

use crate::naming::{append_decimal, decimal};
use crate::{XrActive, XrLocal};

verus! {

/// Marks an entity whose transform is that of a tracked object, holding the
/// object's index.
#[derive(Debug, Clone, Copy, PartialEq, Eq, Hash, Structural)]
pub struct XrTrackedObject(pub u8);

/// The components of an entity that stands for a tracked object.
#[derive(Debug, Clone, PartialEq, Eq)]
pub struct XrTrackedObjectBundle {
    pub name: String,
    pub xr_local: XrLocal,
    pub xr_active: XrActive,
    pub xr_tracked_object: XrTrackedObject,
}

impl XrTrackedObjectBundle {
    /// The components of tracked object `index`: named `XrTrackedObject_`
    /// followed by the index in decimal, local and active.
    pub fn default(index: u8) -> (r: XrTrackedObjectBundle)
        ensures
            r.name@ == "XrTrackedObject_"@ + decimal(index as nat),
            r.xr_active == XrActive(true),
            r.xr_tracked_object == XrTrackedObject(index),
    {
        let mut name = String::from_str("XrTrackedObject_");
        append_decimal(&mut name, index);
        XrTrackedObjectBundle {
            name,
            xr_local: XrLocal,
            xr_active: XrActive(true),
            xr_tracked_object: XrTrackedObject(index),
        }
    }
}

} // verus!
