use xr_components::controller::XrController;
use xr_components::controller_input::{
    all_axis_types, all_input_types, digital_input_step, press_input_step, touch_input_step,
    DigitalInputAction, DigitalInputState, DigitalInputStep, ThresholdSide, XrControllerAxis,
    XrControllerAxisType, XrControllerInfo, XrControllerInputReset, XrControllerInputType,
    XrControllerPress, XrControllerPressInputEvent, XrControllerResetKind, XrControllerState,
    XrControllerStateChangedEvent, XrControllerTouch, XrControllerTouchInputEvent, XrControllers,
};

fn connected(c: XrController, name: &str) -> XrControllerStateChangedEvent {
    XrControllerStateChangedEvent::new(
        c,
        XrControllerState::Connected(XrControllerInfo { name: name.to_string() }),
    )
}

fn tracking(c: XrController, name: &str) -> XrControllerStateChangedEvent {
    XrControllerStateChangedEvent::new(
        c,
        XrControllerState::Tracking(XrControllerInfo { name: name.to_string() }),
    )
}

fn disconnected(c: XrController) -> XrControllerStateChangedEvent {
    XrControllerStateChangedEvent::new(c, XrControllerState::Disconnected)
}

#[test]
fn digital_state_is_pressed() {
    assert!(DigitalInputState::Down.is_pressed());
    assert!(!DigitalInputState::Up.is_pressed());
}

#[test]
fn state_event_predicates() {
    let e = connected(XrController::Left, "a");
    assert!(e.connected() && !e.tracking() && !e.disconnected());
    let e = tracking(XrController::Left, "a");
    assert!(!e.connected() && e.tracking() && !e.disconnected());
    let e = disconnected(XrController::Left);
    assert!(!e.connected() && !e.tracking() && e.disconnected());
}

#[test]
fn empty_registry() {
    let c = XrControllers::new();
    assert!(!c.contains(XrController::Left));
    assert!(c.iter().is_empty());
    assert_eq!(c.name(XrController::Right), None);
    let d = XrControllers::default();
    assert!(d.iter().is_empty());
}

#[test]
fn connect_registers_and_resets() {
    let mut c = XrControllers::new();
    let r = c.handle_state_event(&connected(XrController::Left, "left one"));
    assert_eq!(
        r,
        Some(XrControllerInputReset {
            xr_controller: XrController::Left,
            kind: XrControllerResetKind::Connected,
        })
    );
    assert!(c.contains(XrController::Left));
    assert_eq!(c.name(XrController::Left), Some("left one"));
    assert!(!c.contains(XrController::Right));
}

#[test]
fn connecting_twice_keeps_first_info() {
    let mut c = XrControllers::new();
    c.handle_state_event(&connected(XrController::Other(4), "first"));
    let r = c.handle_state_event(&tracking(XrController::Other(4), "second"));
    assert_eq!(r, None);
    assert_eq!(c.name(XrController::Other(4)), Some("first"));
    assert_eq!(c.iter(), vec![XrController::Other(4)]);
}

#[test]
fn disconnect_deregisters_and_resets() {
    let mut c = XrControllers::new();
    c.handle_state_event(&connected(XrController::Left, "l"));
    c.handle_state_event(&connected(XrController::Right, "r"));
    let r = c.handle_state_event(&disconnected(XrController::Left));
    assert_eq!(
        r,
        Some(XrControllerInputReset {
            xr_controller: XrController::Left,
            kind: XrControllerResetKind::Disconnected,
        })
    );
    assert!(!c.contains(XrController::Left));
    assert_eq!(c.iter(), vec![XrController::Right]);
    assert_eq!(c.name(XrController::Right), Some("r"));
}

#[test]
fn disconnect_of_unknown_controller_still_resets() {
    let mut c = XrControllers::new();
    let r = c.handle_state_event(&disconnected(XrController::Other(9)));
    assert_eq!(
        r,
        Some(XrControllerInputReset {
            xr_controller: XrController::Other(9),
            kind: XrControllerResetKind::Disconnected,
        })
    );
    assert!(c.iter().is_empty());
}

#[test]
fn sequence_of_state_events() {
    let mut c = XrControllers::new();
    let events = vec![
        connected(XrController::Left, "l"),
        tracking(XrController::Right, "r"),
        connected(XrController::Left, "again"),
        disconnected(XrController::Left),
        tracking(XrController::Left, "back"),
    ];
    let resets = c.handle_state_events(&events);
    let reset = |xr_controller, kind| XrControllerInputReset { xr_controller, kind };
    assert_eq!(
        resets,
        vec![
            reset(XrController::Left, XrControllerResetKind::Connected),
            reset(XrController::Right, XrControllerResetKind::Connected),
            reset(XrController::Left, XrControllerResetKind::Disconnected),
            reset(XrController::Left, XrControllerResetKind::Connected),
        ]
    );
    let connected_now = c.iter();
    assert_eq!(connected_now.len(), 2);
    assert!(connected_now.contains(&XrController::Right));
    assert!(connected_now.contains(&XrController::Left));
    assert_eq!(c.name(XrController::Left), Some("back"));
    assert_eq!(c.name(XrController::Right), Some("r"));
}

#[test]
fn reset_lists_every_input_of_the_controller() {
    let reset = XrControllerInputReset {
        xr_controller: XrController::Other(2),
        kind: XrControllerResetKind::Connected,
    };
    let touches = reset.touches();
    assert_eq!(touches.len(), 9);
    assert_eq!(
        touches[0],
        XrControllerTouch::new(XrController::Other(2), XrControllerInputType::AorX)
    );
    assert_eq!(
        touches[8],
        XrControllerTouch::new(XrController::Other(2), XrControllerInputType::System)
    );
    let presses = reset.presses();
    assert_eq!(presses.len(), 9);
    assert_eq!(
        presses[7],
        XrControllerPress::new(XrController::Other(2), XrControllerInputType::Option)
    );
    let axes = reset.axes();
    assert_eq!(
        axes,
        vec![
            XrControllerAxis::new(XrController::Other(2), XrControllerAxisType::StickX),
            XrControllerAxis::new(XrController::Other(2), XrControllerAxisType::StickY),
            XrControllerAxis::new(XrController::Other(2), XrControllerAxisType::PadX),
            XrControllerAxis::new(XrController::Other(2), XrControllerAxisType::PadY),
        ]
    );
}

#[test]
fn every_controller_input_type() {
    let t = all_input_types();
    assert_eq!(t.len(), 9);
    assert!(!t.iter().any(|x| matches!(x, XrControllerInputType::Other(_))));
    let a = all_axis_types();
    assert_eq!(a.len(), 4);
    assert!(!a.iter().any(|x| matches!(x, XrControllerAxisType::Other(_))));
}

#[test]
fn digital_step_table() {
    let step = |event, action| DigitalInputStep { event, action };
    assert_eq!(
        digital_input_step(true, ThresholdSide::Below),
        step(Some(DigitalInputState::Up), DigitalInputAction::Release)
    );
    assert_eq!(
        digital_input_step(false, ThresholdSide::Below),
        step(None, DigitalInputAction::Release)
    );
    assert_eq!(
        digital_input_step(false, ThresholdSide::Above),
        step(Some(DigitalInputState::Down), DigitalInputAction::Press)
    );
    assert_eq!(
        digital_input_step(true, ThresholdSide::Above),
        step(None, DigitalInputAction::Press)
    );
    assert_eq!(
        digital_input_step(true, ThresholdSide::Neither),
        step(None, DigitalInputAction::Keep)
    );
    assert_eq!(
        digital_input_step(false, ThresholdSide::Neither),
        step(None, DigitalInputAction::Keep)
    );
}

#[test]
fn touch_and_press_steps() {
    let touch = XrControllerTouch::new(XrController::Left, XrControllerInputType::Trigger);
    assert_eq!(
        touch_input_step(touch, false, ThresholdSide::Above),
        (
            Some(XrControllerTouchInputEvent { touch, state: DigitalInputState::Down }),
            DigitalInputAction::Press
        )
    );
    let press = XrControllerPress::new(XrController::Right, XrControllerInputType::Grip);
    assert_eq!(
        press_input_step(press, true, ThresholdSide::Below),
        (
            Some(XrControllerPressInputEvent { press, state: DigitalInputState::Up }),
            DigitalInputAction::Release
        )
    );
    assert_eq!(
        press_input_step(press, false, ThresholdSide::Below),
        (None, DigitalInputAction::Release)
    );
}

#[test]
fn latest_state_event_decides_connection() {
    let mut c = XrControllers::new();
    c.handle_state_events(&vec![
        connected(XrController::Left, "l"),
        disconnected(XrController::Left),
        connected(XrController::Right, "r"),
        tracking(XrController::Other(1), "o"),
        disconnected(XrController::Other(1)),
        tracking(XrController::Other(1), "o2"),
    ]);
    assert!(!c.contains(XrController::Left));
    assert!(c.contains(XrController::Right));
    assert!(c.contains(XrController::Other(1)));
    assert_eq!(c.name(XrController::Other(1)), Some("o2"));
}
