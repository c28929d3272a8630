//! Windows into the XR scene, such as a smartphone in a WebXR session.
use vstd::prelude::*;

use crate::naming::{append_decimal, decimal};
use crate::{XrActive, XrLocal, XrView};

verus! {

/// Marks an entity whose transform is that of a window into the XR scene,
/// holding the window's index.
#[derive(Debug, Clone, Copy, PartialEq, Eq, Hash, Structural)]
pub struct XrWindow(pub u8);

/// The components of an entity that renders a window into the XR scene.
#[derive(Debug, Clone, PartialEq, Eq)]
pub struct XrWindowBundle {
    pub name: String,
    pub xr_local: XrLocal,
    pub xr_active: XrActive,
    pub xr_view: XrView,
    pub xr_window: XrWindow,
}

impl XrWindowBundle {
    /// The components of window `index`: named `XrWindow_` followed by the
    /// index in decimal, local, active, and a view of the same index.
    pub fn default(index: u8) -> (r: XrWindowBundle)
        ensures
            r.name@ == "XrWindow_"@ + decimal(index as nat),
            r.xr_active == XrActive(true),
            r.xr_view == XrView(index),
            r.xr_window == XrWindow(index),
    {
        let mut name = String::from_str("XrWindow_");
        append_decimal(&mut name, index);
        XrWindowBundle {
            name,
            xr_local: XrLocal,
            xr_active: XrActive(true),
            xr_view: XrView(index),
            xr_window: XrWindow(index),
        }
    }
}

} // verus!
