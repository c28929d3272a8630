//! The head, the headset and the eyes.
use vstd::prelude::*;

use crate::handedness::Handedness;
use crate::naming::{append_decimal, decimal};
use crate::{XrActive, XrLocal, XrView};

verus! {

/// Marks an entity whose transform is the bone transform of the head.
#[derive(Debug, Clone, Copy, PartialEq, Eq, Structural)]
pub struct XrHead;

/// Marks an entity whose transform is that of the headset.
#[derive(Debug, Clone, Copy, PartialEq, Eq, Structural)]
pub struct XrHeadset;

/// The components of an entity that stands for the headset.
#[derive(Debug, Clone, PartialEq, Eq)]
pub struct XrHeadsetBundle {
    pub name: String,
    pub xr_headset: XrHeadset,
    pub xr_local: XrLocal,
    pub xr_active: XrActive,
}

impl XrHeadsetBundle {
    /// The components of the headset: named `XrOrigin`, local and active.
    pub fn default() -> (r: XrHeadsetBundle)
        ensures
            r.name@ == "XrOrigin"@,
            r.xr_active == XrActive(true),
    {
        XrHeadsetBundle {
            name: String::from_str("XrOrigin"),
            xr_headset: XrHeadset,
            xr_local: XrLocal,
            xr_active: XrActive(true),
        }
    }
}

/// Marks an entity whose transform is that of an eye, holding the index of the
/// pair of eyes it belongs to.
#[derive(Debug, Clone, Copy, PartialEq, Eq, Hash, Structural)]
pub struct XrEye(pub u8);

/// The components of an entity that renders the view of one eye.
#[derive(Debug, Clone, PartialEq, Eq)]
pub struct XrEyeBundle {
    pub name: String,
    pub xr_local: XrLocal,
    pub xr_active: XrActive,
    pub xr_view: XrView,
    pub handedness: Handedness,
    pub xr_eye: XrEye,
}

impl XrEyeBundle {
    /// The components of the `handedness` eye of pair `index`: named `XrEye_`,
    /// the side's marker name, `_` and the index in decimal; local, active,
    /// and a view of the same index.
    pub fn default(handedness: Handedness, index: u8) -> (r: XrEyeBundle)
        ensures
            r.name@ == "XrEye_"@ + handedness.ident() + "_"@ + decimal(index as nat),
            r.xr_active == XrActive(true),
            r.xr_view == XrView(index),
            r.handedness == handedness,
            r.xr_eye == XrEye(index),
    {
        let mut name = String::from_str("XrEye_");
        name.append(handedness.type_ident());
        name.append("_");
        append_decimal(&mut name, index);
        XrEyeBundle {
            name,
            xr_local: XrLocal,
            xr_active: XrActive(true),
            xr_view: XrView(index),
            handedness,
            xr_eye: XrEye(index),
        }
    }
}

} // verus!
