//! Elemental components for cross-platform XR applications: the taxonomies of
//! hands, controllers, heads, pointers, origins and tracked objects, the
//! naming rules of the groups of components that describe them, and the
//! decisions that keep controller input state consistent.
use vstd::prelude::*;

pub mod body;
pub mod controller;
pub mod controller_input;
pub mod handedness;
pub mod hands;
pub mod head;
pub mod naming;
pub mod pointer;
pub mod render;
pub mod space;
pub mod systems;
pub mod table;
pub mod tracked_object;
pub mod window;

verus! {

/// The kind of XR experience.
#[derive(Debug, Clone, Copy, PartialEq, Eq, Structural)]
pub enum XrMode {
    /// The viewer does not see or interact with the real world around them.
    VR,
    /// The viewer sees or interacts with the real world around them.
    AR,
    /// No XR experience, such as an inline WebXR session or an OpenXR session
    /// without a headset.
    NoXr,
}

/// Marks XR entities that are controlled by the local runtime (this device,
/// or this player), as opposed to remote players with a similar setup.
#[derive(Debug, Clone, Copy, PartialEq, Eq, Structural)]
pub struct XrLocal;

/// Whether the entity is currently tracked, or its view is currently requested
/// by the runtime.
#[derive(Debug, Clone, Copy, PartialEq, Eq, Structural)]
pub struct XrActive(pub bool);

/// Marks an entity as a view managed by the XR platform, holding the index of
/// the view.
#[derive(Debug, Clone, Copy, PartialEq, Eq, Structural)]
pub struct XrView(pub u8);

} // verus!
