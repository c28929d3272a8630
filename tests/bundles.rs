use xr_components::controller::{XrController, XrControllerBundle, XrControllerHandlessBundle};
use xr_components::handedness::Handedness;
use xr_components::head::{XrEye, XrEyeBundle, XrHeadsetBundle};
use xr_components::naming::append_decimal;
use xr_components::tracked_object::{XrTrackedObject, XrTrackedObjectBundle};
use xr_components::window::{XrWindow, XrWindowBundle};
use xr_components::{XrActive, XrView};

#[test]
fn decimal_names_of_indices() {
    for (n, text) in [(0u8, "0"), (7, "7"), (10, "10"), (42, "42"), (100, "100"), (255, "255")] {
        let mut s = String::from("#");
        append_decimal(&mut s, n);
        assert_eq!(s, format!("#{}", text));
    }
}

#[test]
fn controller_bundle() {
    let b = XrControllerBundle::default(Handedness::Left, 3);
    assert_eq!(b.name, "XrController_LeftHanded");
    assert_eq!(b.xr_controller, XrController::Left);
    assert_eq!(b.handedness, Handedness::Left);
    assert_eq!(b.xr_tracked_object, XrTrackedObject(3));
    assert_eq!(b.xr_active, XrActive(true));

    let b = XrControllerBundle::default(Handedness::Right, 0);
    assert_eq!(b.name, "XrController_RightHanded");
    assert_eq!(b.xr_controller, XrController::Right);
}

#[test]
fn handless_controller_bundle() {
    let b = XrControllerHandlessBundle::default(12);
    assert_eq!(b.name, "XrController_Other(12)");
    assert_eq!(b.xr_controller, XrController::Other(12));
    assert_eq!(b.xr_tracked_object, XrTrackedObject(12));
    assert_eq!(b.xr_active, XrActive(true));
}

#[test]
fn controller_from_handedness() {
    assert_eq!(XrController::from_handedness(Handedness::Left), XrController::Left);
    assert_eq!(XrController::from_handedness(Handedness::Right), XrController::Right);
}

#[test]
fn headset_bundle() {
    let b = XrHeadsetBundle::default();
    assert_eq!(b.name, "XrOrigin");
    assert_eq!(b.xr_active, XrActive(true));
}

#[test]
fn eye_bundle() {
    let b = XrEyeBundle::default(Handedness::Right, 1);
    assert_eq!(b.name, "XrEye_RightHanded_1");
    assert_eq!(b.xr_view, XrView(1));
    assert_eq!(b.xr_eye, XrEye(1));
    assert_eq!(b.handedness, Handedness::Right);
    assert_eq!(b.xr_active, XrActive(true));
}

#[test]
fn tracked_object_bundle() {
    let b = XrTrackedObjectBundle::default(255);
    assert_eq!(b.name, "XrTrackedObject_255");
    assert_eq!(b.xr_tracked_object, XrTrackedObject(255));
    assert_eq!(b.xr_active, XrActive(true));
}

#[test]
fn window_bundle() {
    let b = XrWindowBundle::default(0);
    assert_eq!(b.name, "XrWindow_0");
    assert_eq!(b.xr_view, XrView(0));
    assert_eq!(b.xr_window, XrWindow(0));
}
