use bevy::input::gamepad::{AxisSettings, ButtonAxisSettings, ButtonSettings};
use xr_components::controller::XrController;
use xr_components::controller_input::{
    XrControllerAxis, XrControllerAxisType, XrControllerInputType, XrControllerPress,
    XrControllerSettings, XrControllerTouch,
};
use xr_components::table::KeyedTable;

#[test]
fn table_insert_replace_remove() {
    let mut t: KeyedTable<XrController, u32> = KeyedTable::new();
    assert!(t.keys().is_empty());
    t.insert(XrController::Left, 1);
    t.insert(XrController::Other(3), 2);
    t.insert(XrController::Right, 3);
    assert_eq!(t.get(XrController::Other(3)), Some(&2));
    t.insert(XrController::Other(3), 20);
    assert_eq!(t.get(XrController::Other(3)), Some(&20));
    let keys = t.keys();
    assert_eq!(keys.len(), 3);
    for k in [XrController::Left, XrController::Other(3), XrController::Right] {
        assert!(keys.contains(&k));
    }
    t.remove(XrController::Left);
    assert!(!t.contains_key(XrController::Left));
    assert_eq!(t.get(XrController::Left), None);
    t.remove(XrController::Other(7));
    let keys = t.keys();
    assert_eq!(keys.len(), 2);
    assert!(keys.contains(&XrController::Other(3)) && keys.contains(&XrController::Right));
}

#[test]
fn settings_fall_back_to_defaults() {
    let settings = XrControllerSettings::default();
    let touch = XrControllerTouch::new(XrController::Left, XrControllerInputType::Trigger);
    let press = XrControllerPress::new(XrController::Left, XrControllerInputType::Grip);
    let axis = XrControllerAxis::new(XrController::Right, XrControllerAxisType::StickX);
    let default_button = ButtonSettings::default();
    assert_eq!(
        settings.get_touch_settings(touch).press_threshold(),
        default_button.press_threshold()
    );
    assert_eq!(
        settings.get_press_settings(press).release_threshold(),
        default_button.release_threshold()
    );
    assert_eq!(settings.get_axis_settings(axis), &AxisSettings::default());
    assert_eq!(
        settings.get_touch_axis_settings(touch).high,
        ButtonAxisSettings::default().high
    );
    assert_eq!(
        settings.get_press_axis_settings(press).low,
        ButtonAxisSettings::default().low
    );
}

#[test]
fn settings_of_particular_inputs_take_precedence() {
    let mut settings = XrControllerSettings::default();
    let touch = XrControllerTouch::new(XrController::Left, XrControllerInputType::Trigger);
    let other_touch = XrControllerTouch::new(XrController::Right, XrControllerInputType::Trigger);
    let press = XrControllerPress::new(XrController::Other(1), XrControllerInputType::AorX);
    settings
        .touch_settings
        .insert(touch, ButtonSettings::new(0.3, 0.2).unwrap());
    settings.press_axis_settings.insert(
        press,
        ButtonAxisSettings { high: 0.9, low: 0.1, threshold: 0.02 },
    );
    assert_eq!(settings.get_touch_settings(touch).press_threshold(), 0.3);
    assert_eq!(settings.get_touch_settings(touch).release_threshold(), 0.2);
    assert_eq!(
        settings.get_touch_settings(other_touch).press_threshold(),
        ButtonSettings::default().press_threshold()
    );
    assert_eq!(settings.get_press_axis_settings(press).high, 0.9);
    assert_eq!(settings.get_press_axis_settings(press).threshold, 0.02);
}
