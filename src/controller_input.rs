//! Controller inputs: the registry of connected controllers, the inputs each
//! controller offers, and how changes of connection and of analog readings
//! turn into resets and digital input events.
use vstd::prelude::*;

use crate::controller::XrController;
use crate::table::{KeyedTable, TableKey};

verus! {

/// A button-like input of a controller, which can be touched and pressed.
#[derive(Debug, Clone, Copy, PartialEq, Eq, Hash, Structural)]
pub enum XrControllerInputType {
    AorX,
    BorY,
    Stick,
    Pad,
    Trigger,
    Grip,
    Bumper,
    Option,
    System,
    Other(u8),
}

/// An analog axis of a controller.
#[derive(Debug, Clone, Copy, PartialEq, Eq, Hash, Structural)]
pub enum XrControllerAxisType {
    StickX,
    StickY,
    PadX,
    PadY,
    Other(u8),
}

/// The button-like inputs that every controller has, in a fixed order.
pub open spec fn spec_all_input_types() -> Seq<XrControllerInputType> {
    seq![
        XrControllerInputType::AorX,
        XrControllerInputType::BorY,
        XrControllerInputType::Stick,
        XrControllerInputType::Pad,
        XrControllerInputType::Trigger,
        XrControllerInputType::Grip,
        XrControllerInputType::Bumper,
        XrControllerInputType::Option,
        XrControllerInputType::System,
    ]
}

/// The axes that every controller has, in a fixed order.
pub open spec fn spec_all_axis_types() -> Seq<XrControllerAxisType> {
    seq![
        XrControllerAxisType::StickX,
        XrControllerAxisType::StickY,
        XrControllerAxisType::PadX,
        XrControllerAxisType::PadY,
    ]
}

/// Returns the button-like inputs that every controller has: all input types
/// but `Other`.
pub fn all_input_types() -> (r: Vec<XrControllerInputType>)
    ensures
        r@ == spec_all_input_types(),
{
    let r = vec![
        XrControllerInputType::AorX,
        XrControllerInputType::BorY,
        XrControllerInputType::Stick,
        XrControllerInputType::Pad,
        XrControllerInputType::Trigger,
        XrControllerInputType::Grip,
        XrControllerInputType::Bumper,
        XrControllerInputType::Option,
        XrControllerInputType::System,
    ];
    assert(r@ =~= spec_all_input_types());
    r
}

/// Returns the axes that every controller has: all axis types but `Other`.
pub fn all_axis_types() -> (r: Vec<XrControllerAxisType>)
    ensures
        r@ == spec_all_axis_types(),
{
    let r = vec![
        XrControllerAxisType::StickX,
        XrControllerAxisType::StickY,
        XrControllerAxisType::PadX,
        XrControllerAxisType::PadY,
    ];
    assert(r@ =~= spec_all_axis_types());
    r
}

/// The state of a digital input.
#[derive(Debug, Clone, Copy, PartialEq, Eq, Hash, Structural)]
pub enum DigitalInputState {
    /// The input is down.
    Down,
    /// The input is up.
    Up,
}

impl DigitalInputState {
    /// Returns whether the input is down.
    pub fn is_pressed(&self) -> (r: bool)
        ensures
            r == (*self == DigitalInputState::Down),
    {
        match self {
            DigitalInputState::Down => true,
            DigitalInputState::Up => false,
        }
    }
}

/// What is known of a controller.
#[derive(Debug, Clone, PartialEq, Eq)]
pub struct XrControllerInfo {
    /// The name of the controller.
    pub name: String,
}

/// A touch sensor of a button-like input of a controller.
#[derive(Debug, Clone, Copy, PartialEq, Eq, Hash, Structural)]
pub struct XrControllerTouch {
    /// The controller the input is on.
    pub xr_controller: XrController,
    /// The input.
    pub input_type: XrControllerInputType,
}

impl XrControllerTouch {
    pub fn new(xr_controller: XrController, input_type: XrControllerInputType) -> (r: Self)
        ensures
            r == (XrControllerTouch { xr_controller, input_type }),
    {
        XrControllerTouch { xr_controller, input_type }
    }
}

/// A change of the digital state of a touch sensor.
#[derive(Debug, Clone, Copy, PartialEq, Eq, Structural)]
pub struct XrControllerTouchInputEvent {
    /// The touch sensor.
    pub touch: XrControllerTouch,
    /// Its new state.
    pub state: DigitalInputState,
}

/// The press sensor of a button-like input of a controller.
#[derive(Debug, Clone, Copy, PartialEq, Eq, Hash, Structural)]
pub struct XrControllerPress {
    /// The controller the input is on.
    pub xr_controller: XrController,
    /// The input.
    pub input_type: XrControllerInputType,
}

impl XrControllerPress {
    pub fn new(xr_controller: XrController, input_type: XrControllerInputType) -> (r: Self)
        ensures
            r == (XrControllerPress { xr_controller, input_type }),
    {
        XrControllerPress { xr_controller, input_type }
    }
}

/// A change of the digital state of a press sensor.
#[derive(Debug, Clone, Copy, PartialEq, Eq, Structural)]
pub struct XrControllerPressInputEvent {
    /// The press sensor.
    pub press: XrControllerPress,
    /// Its new state.
    pub state: DigitalInputState,
}

/// An analog axis of a controller.
#[derive(Debug, Clone, Copy, PartialEq, Eq, Hash, Structural)]
pub struct XrControllerAxis {
    /// The controller the axis is on.
    pub xr_controller: XrController,
    /// The axis.
    pub axis_type: XrControllerAxisType,
}

impl XrControllerAxis {
    pub fn new(xr_controller: XrController, axis_type: XrControllerAxisType) -> (r: Self)
        ensures
            r == (XrControllerAxis { xr_controller, axis_type }),
    {
        XrControllerAxis { xr_controller, axis_type }
    }
}

impl TableKey for XrController {
    fn same(&self, other: &Self) -> (r: bool) {
        *self == *other
    }
}

impl TableKey for XrControllerTouch {
    fn same(&self, other: &Self) -> (r: bool) {
        *self == *other
    }
}

impl TableKey for XrControllerPress {
    fn same(&self, other: &Self) -> (r: bool) {
        *self == *other
    }
}

impl TableKey for XrControllerAxis {
    fn same(&self, other: &Self) -> (r: bool) {
        *self == *other
    }
}

/// The engine's thresholds of a digital input.
#[verifier::external_type_specification]
#[verifier::external_body]
pub struct ExButtonSettings(bevy::input::gamepad::ButtonSettings);

/// The engine's dead zones and live zones of an analog axis.
#[verifier::external_type_specification]
#[verifier::external_body]
pub struct ExAxisSettings(bevy::input::gamepad::AxisSettings);

/// The engine's rounding of the analog reading of a digital input.
#[verifier::external_type_specification]
#[verifier::external_body]
pub struct ExButtonAxisSettings(bevy::input::gamepad::ButtonAxisSettings);

/// Relies on `ButtonSettings::default`: the engine's default press and release
/// thresholds. Nothing is assumed of the values.
pub assume_specification[ <bevy::input::gamepad::ButtonSettings as core::default::Default>::default ]() -> bevy::input::gamepad::ButtonSettings;

/// Relies on `AxisSettings::default`: the engine's default zones of an axis.
/// Nothing is assumed of the values.
pub assume_specification[ <bevy::input::gamepad::AxisSettings as core::default::Default>::default ]() -> bevy::input::gamepad::AxisSettings;

/// Relies on `ButtonAxisSettings::default`: the engine's default rounding of
/// an analog reading. Nothing is assumed of the values.
pub assume_specification[ <bevy::input::gamepad::ButtonAxisSettings as core::default::Default>::default ]() -> bevy::input::gamepad::ButtonAxisSettings;

/// Settings of a digital input.
pub type DigitalInputSettings = bevy::input::gamepad::ButtonSettings;

/// Settings of an analog axis.
pub type AnalogInputSettings = bevy::input::gamepad::AxisSettings;

/// Settings of the analog reading of a digital input.
pub type DigitalAnalogInputSettings = bevy::input::gamepad::ButtonAxisSettings;

/// The settings of the inputs of all controllers: one default for each kind of
/// input, and settings of particular inputs that take its place.
#[derive(Debug)]
pub struct XrControllerSettings {
    /// The default touch settings.
    pub default_touch_settings: DigitalInputSettings,
    /// The default press settings.
    pub default_press_settings: DigitalInputSettings,
    /// The default axis settings.
    pub default_axis_settings: AnalogInputSettings,
    /// The default settings of the analog reading of a touch sensor.
    pub default_touch_axis_settings: DigitalAnalogInputSettings,
    /// The default settings of the analog reading of a press sensor.
    pub default_press_axis_settings: DigitalAnalogInputSettings,
    /// The touch settings of particular touch sensors.
    pub touch_settings: KeyedTable<XrControllerTouch, DigitalInputSettings>,
    /// The press settings of particular press sensors.
    pub press_settings: KeyedTable<XrControllerPress, DigitalInputSettings>,
    /// The axis settings of particular axes.
    pub axis_settings: KeyedTable<XrControllerAxis, AnalogInputSettings>,
    /// The analog reading settings of particular touch sensors.
    pub touch_axis_settings: KeyedTable<XrControllerTouch, DigitalAnalogInputSettings>,
    /// The analog reading settings of particular press sensors.
    pub press_axis_settings: KeyedTable<XrControllerPress, DigitalAnalogInputSettings>,
}

impl XrControllerSettings {
    /// Returns the touch settings of `touch`: its own if it has any, else the
    /// default touch settings.
    pub fn get_touch_settings(&self, touch: XrControllerTouch) -> (r: &DigitalInputSettings)
        ensures
            *r == if self.touch_settings@.contains_key(touch) {
                self.touch_settings@[touch]
            } else {
                self.default_touch_settings
            },
    {
        match self.touch_settings.get(touch) {
            Some(settings) => settings,
            None => &self.default_touch_settings,
        }
    }

    /// Returns the press settings of `press`: its own if it has any, else the
    /// default press settings.
    pub fn get_press_settings(&self, press: XrControllerPress) -> (r: &DigitalInputSettings)
        ensures
            *r == if self.press_settings@.contains_key(press) {
                self.press_settings@[press]
            } else {
                self.default_press_settings
            },
    {
        match self.press_settings.get(press) {
            Some(settings) => settings,
            None => &self.default_press_settings,
        }
    }

    /// Returns the settings of `axis`: its own if it has any, else the default
    /// axis settings.
    pub fn get_axis_settings(&self, axis: XrControllerAxis) -> (r: &AnalogInputSettings)
        ensures
            *r == if self.axis_settings@.contains_key(axis) {
                self.axis_settings@[axis]
            } else {
                self.default_axis_settings
            },
    {
        match self.axis_settings.get(axis) {
            Some(settings) => settings,
            None => &self.default_axis_settings,
        }
    }

    /// Returns the analog reading settings of `touch`: its own if it has any,
    /// else the default ones of touch sensors.
    pub fn get_touch_axis_settings(&self, touch: XrControllerTouch) -> (r:
        &DigitalAnalogInputSettings)
        ensures
            *r == if self.touch_axis_settings@.contains_key(touch) {
                self.touch_axis_settings@[touch]
            } else {
                self.default_touch_axis_settings
            },
    {
        match self.touch_axis_settings.get(touch) {
            Some(settings) => settings,
            None => &self.default_touch_axis_settings,
        }
    }

    /// Returns the analog reading settings of `press`: its own if it has any,
    /// else the default ones of press sensors.
    pub fn get_press_axis_settings(&self, press: XrControllerPress) -> (r:
        &DigitalAnalogInputSettings)
        ensures
            *r == if self.press_axis_settings@.contains_key(press) {
                self.press_axis_settings@[press]
            } else {
                self.default_press_axis_settings
            },
    {
        match self.press_axis_settings.get(press) {
            Some(settings) => settings,
            None => &self.default_press_axis_settings,
        }
    }
}

impl Default for XrControllerSettings {
    /// The engine's default settings for every kind of input, and no settings
    /// of particular inputs.
    fn default() -> (r: XrControllerSettings)
        ensures
            r.touch_settings@ == Map::<XrControllerTouch, DigitalInputSettings>::empty(),
            r.press_settings@ == Map::<XrControllerPress, DigitalInputSettings>::empty(),
            r.axis_settings@ == Map::<XrControllerAxis, AnalogInputSettings>::empty(),
            r.touch_axis_settings@ == Map::<XrControllerTouch, DigitalAnalogInputSettings>::empty(),
            r.press_axis_settings@ == Map::<XrControllerPress, DigitalAnalogInputSettings>::empty(),
    {
        XrControllerSettings {
            default_touch_settings: DigitalInputSettings::default(),
            default_press_settings: DigitalInputSettings::default(),
            default_axis_settings: AnalogInputSettings::default(),
            default_touch_axis_settings: DigitalAnalogInputSettings::default(),
            default_press_axis_settings: DigitalAnalogInputSettings::default(),
            touch_settings: KeyedTable::new(),
            press_settings: KeyedTable::new(),
            axis_settings: KeyedTable::new(),
            touch_axis_settings: KeyedTable::new(),
            press_axis_settings: KeyedTable::new(),
        }
    }
}

/// The connection state of a controller.
#[derive(Debug, Clone, PartialEq, Eq)]
pub enum XrControllerState {
    /// The controller is connected and tracked.
    Tracking(XrControllerInfo),
    /// The controller is connected.
    Connected(XrControllerInfo),
    /// The controller is disconnected.
    Disconnected,
}

/// A change of the connection state of a controller.
#[derive(Debug, Clone, PartialEq, Eq)]
pub struct XrControllerStateChangedEvent {
    /// The controller whose state changed.
    pub xr_controller: XrController,
    /// Its new state.
    pub state: XrControllerState,
}

impl XrControllerStateChangedEvent {
    pub fn new(xr_controller: XrController, state: XrControllerState) -> (r: Self)
        ensures
            r == (XrControllerStateChangedEvent { xr_controller, state }),
    {
        XrControllerStateChangedEvent { xr_controller, state }
    }

    /// Returns whether the controller is now tracked.
    pub fn tracking(&self) -> (r: bool)
        ensures
            r == (self.state is Tracking),
    {
        match self.state {
            XrControllerState::Tracking(_) => true,
            _ => false,
        }
    }

    /// Returns whether the controller is now connected but not tracked.
    pub fn connected(&self) -> (r: bool)
        ensures
            r == (self.state is Connected),
    {
        match self.state {
            XrControllerState::Connected(_) => true,
            _ => false,
        }
    }

    /// Returns whether the controller is now disconnected: neither connected
    /// nor tracked.
    pub fn disconnected(&self) -> (r: bool)
        ensures
            r == (self.state is Disconnected),
    {
        !(self.connected() || self.tracking())
    }
}

/// Whether the inputs of a controller are reset because it connected or
/// because it disconnected.
#[derive(Debug, Clone, Copy, PartialEq, Eq, Hash, Structural)]
pub enum XrControllerResetKind {
    /// The controller has just connected: each of its inputs is released and
    /// each of its analog readings starts at zero.
    Connected,
    /// The controller has just disconnected: each of its inputs is released and
    /// each of its analog readings is removed.
    Disconnected,
}

/// The inputs of one controller are to be reset.
#[derive(Debug, Clone, Copy, PartialEq, Eq, Hash, Structural)]
pub struct XrControllerInputReset {
    pub xr_controller: XrController,
    pub kind: XrControllerResetKind,
}

impl XrControllerInputReset {
    /// The touch sensors of the controller, one for each input that every
    /// controller has.
    pub open spec fn spec_touches(self) -> Seq<XrControllerTouch> {
        spec_all_input_types().map_values(
            |t: XrControllerInputType| XrControllerTouch { xr_controller: self.xr_controller, input_type: t },
        )
    }

    /// The press sensors of the controller, one for each input that every
    /// controller has.
    pub open spec fn spec_presses(self) -> Seq<XrControllerPress> {
        spec_all_input_types().map_values(
            |t: XrControllerInputType| XrControllerPress { xr_controller: self.xr_controller, input_type: t },
        )
    }

    /// The axes of the controller, one for each axis that every controller has.
    pub open spec fn spec_axes(self) -> Seq<XrControllerAxis> {
        spec_all_axis_types().map_values(
            |t: XrControllerAxisType| XrControllerAxis { xr_controller: self.xr_controller, axis_type: t },
        )
    }

    /// Returns the touch sensors to reset.
    pub fn touches(&self) -> (r: Vec<XrControllerTouch>)
        ensures
            r@ == self.spec_touches(),
    {
        let types = all_input_types();
        let mut r: Vec<XrControllerTouch> = Vec::new();
        let mut i: usize = 0;
        while i < types.len()
            invariant
                types@ == spec_all_input_types(),
                i <= types@.len(),
                r@ == self.spec_touches().take(i as int),
            decreases types.len() - i,
        {
            r.push(XrControllerTouch::new(self.xr_controller, types[i]));
            i = i + 1;
            assert(r@ =~= self.spec_touches().take(i as int));
        }
        assert(r@ =~= self.spec_touches());
        r
    }

    /// Returns the press sensors to reset.
    pub fn presses(&self) -> (r: Vec<XrControllerPress>)
        ensures
            r@ == self.spec_presses(),
    {
        let types = all_input_types();
        let mut r: Vec<XrControllerPress> = Vec::new();
        let mut i: usize = 0;
        while i < types.len()
            invariant
                types@ == spec_all_input_types(),
                i <= types@.len(),
                r@ == self.spec_presses().take(i as int),
            decreases types.len() - i,
        {
            r.push(XrControllerPress::new(self.xr_controller, types[i]));
            i = i + 1;
            assert(r@ =~= self.spec_presses().take(i as int));
        }
        assert(r@ =~= self.spec_presses());
        r
    }

    /// Returns the axes to reset.
    pub fn axes(&self) -> (r: Vec<XrControllerAxis>)
        ensures
            r@ == self.spec_axes(),
    {
        let types = all_axis_types();
        let mut r: Vec<XrControllerAxis> = Vec::new();
        let mut i: usize = 0;
        while i < types.len()
            invariant
                types@ == spec_all_axis_types(),
                i <= types@.len(),
                r@ == self.spec_axes().take(i as int),
            decreases types.len() - i,
        {
            r.push(XrControllerAxis::new(self.xr_controller, types[i]));
            i = i + 1;
            assert(r@ =~= self.spec_axes().take(i as int));
        }
        assert(r@ =~= self.spec_axes());
        r
    }
}

/// The connected controllers after a change of connection state, given those
/// connected before: a controller that connects is added with its information
/// unless it is already there, and one that disconnects is removed.
pub open spec fn spec_next_controllers(
    controllers: Map<XrController, Seq<char>>,
    event: XrControllerStateChangedEvent,
) -> Map<XrController, Seq<char>> {
    match event.state {
        XrControllerState::Tracking(info) | XrControllerState::Connected(info) => {
            if controllers.contains_key(event.xr_controller) {
                controllers
            } else {
                controllers.insert(event.xr_controller, info.name@)
            }
        },
        XrControllerState::Disconnected => controllers.remove(event.xr_controller),
    }
}

/// The reset that a change of connection state calls for, given the connected
/// controllers before it: one when a controller that was not connected
/// connects, and one whenever a controller disconnects.
pub open spec fn spec_state_event_reset(
    controllers: Map<XrController, Seq<char>>,
    event: XrControllerStateChangedEvent,
) -> Option<XrControllerInputReset> {
    match event.state {
        XrControllerState::Tracking(_) | XrControllerState::Connected(_) => {
            if controllers.contains_key(event.xr_controller) {
                None
            } else {
                Some(
                    XrControllerInputReset {
                        xr_controller: event.xr_controller,
                        kind: XrControllerResetKind::Connected,
                    },
                )
            }
        },
        XrControllerState::Disconnected => Some(
            XrControllerInputReset {
                xr_controller: event.xr_controller,
                kind: XrControllerResetKind::Disconnected,
            },
        ),
    }
}

/// The connected controllers after a sequence of changes of connection state.
pub open spec fn spec_controllers_after(
    controllers: Map<XrController, Seq<char>>,
    events: Seq<XrControllerStateChangedEvent>,
) -> Map<XrController, Seq<char>>
    decreases events.len(),
{
    if events.len() == 0 {
        controllers
    } else {
        spec_next_controllers(
            spec_controllers_after(controllers, events.drop_last()),
            events.last(),
        )
    }
}

/// The resets that a sequence of changes of connection state calls for, in
/// order.
pub open spec fn spec_resets_after(
    controllers: Map<XrController, Seq<char>>,
    events: Seq<XrControllerStateChangedEvent>,
) -> Seq<XrControllerInputReset>
    decreases events.len(),
{
    if events.len() == 0 {
        Seq::empty()
    } else {
        let before = spec_controllers_after(controllers, events.drop_last());
        let earlier = spec_resets_after(controllers, events.drop_last());
        match spec_state_event_reset(before, events.last()) {
            Some(reset) => earlier.push(reset),
            None => earlier,
        }
    }
}

/// Whether controller `c` is connected after `events`, by its most recent
/// change of state among them: connected unless that change disconnected it,
/// and `connected_before` where none of the changes is about it.
pub open spec fn spec_connected_by_latest(
    connected_before: bool,
    events: Seq<XrControllerStateChangedEvent>,
    c: XrController,
) -> bool
    decreases events.len(),
{
    if events.len() == 0 {
        connected_before
    } else if events.last().xr_controller == c {
        !(events.last().state is Disconnected)
    } else {
        spec_connected_by_latest(connected_before, events.drop_last(), c)
    }
}

/// After a sequence of changes of connection state, a controller is connected
/// exactly when its most recent change connected it or started its tracking,
/// or, where no change is about it, when it was connected before.
pub proof fn lemma_connected_by_latest_event(
    controllers: Map<XrController, Seq<char>>,
    events: Seq<XrControllerStateChangedEvent>,
    c: XrController,
)
    ensures
        spec_controllers_after(controllers, events).contains_key(c) == spec_connected_by_latest(
            controllers.contains_key(c),
            events,
            c,
        ),
    decreases events.len(),
{
    if events.len() > 0 {
        lemma_connected_by_latest_event(controllers, events.drop_last(), c);
    }
}

/// The connected controllers, each with what is known of it.
#[derive(Debug)]
pub struct XrControllers {
    xr_controllers: KeyedTable<XrController, XrControllerInfo>,
}

impl View for XrControllers {
    type V = Map<XrController, Seq<char>>;

    /// The connected controllers, each with its name.
    closed spec fn view(&self) -> Map<XrController, Seq<char>> {
        Map::new(
            |c: XrController| self.xr_controllers@.contains_key(c),
            |c: XrController| self.xr_controllers@[c].name@,
        )
    }
}

impl XrControllers {
    /// Returns a registry with no controller connected.
    pub fn new() -> (r: XrControllers)
        ensures
            r@ == Map::<XrController, Seq<char>>::empty(),
    {
        let r = XrControllers { xr_controllers: KeyedTable::new() };
        assert(r@ =~= Map::<XrController, Seq<char>>::empty());
        r
    }

    /// Returns whether `xr_controller` is connected.
    pub fn contains(&self, xr_controller: XrController) -> (r: bool)
        ensures
            r == self@.contains_key(xr_controller),
    {
        self.xr_controllers.contains_key(xr_controller)
    }

    /// Returns the connected controllers, each once.
    pub fn iter(&self) -> (r: Vec<XrController>)
        ensures
            r@.to_set() == self@.dom(),
            r@.no_duplicates(),
    {
        let r = self.xr_controllers.keys();
        assert(self@.dom() =~= self.xr_controllers@.dom());
        r
    }

    /// Returns the name of `xr_controller` if it is connected.
    pub fn name(&self, xr_controller: XrController) -> (r: Option<&str>)
        ensures
            r is Some <==> self@.contains_key(xr_controller),
            r matches Some(n) ==> n@ == self@[xr_controller],
    {
        match self.xr_controllers.get(xr_controller) {
            Some(info) => Some(info.name.as_str()),
            None => None,
        }
    }

    /// Marks `xr_controller` as connected, with what is known of it.
    fn register(&mut self, xr_controller: XrController, info: XrControllerInfo)
        ensures
            final(self)@ == old(self)@.insert(xr_controller, info.name@),
    {
        let ghost name = info.name@;
        self.xr_controllers.insert(xr_controller, info);
        assert(self@ =~= old(self)@.insert(xr_controller, name));
    }

    /// Marks `xr_controller` as disconnected.
    fn deregister(&mut self, xr_controller: XrController)
        ensures
            final(self)@ == old(self)@.remove(xr_controller),
    {
        self.xr_controllers.remove(xr_controller);
        assert(self@ =~= old(self)@.remove(xr_controller));
    }

    /// Applies a change of connection state: a controller that connects, or
    /// starts being tracked, is registered with its information unless it is
    /// already connected; one that disconnects is deregistered. Returns the
    /// reset that the change calls for, if any.
    pub fn handle_state_event(&mut self, event: &XrControllerStateChangedEvent) -> (r: Option<
        XrControllerInputReset,
    >)
        ensures
            final(self)@ == spec_next_controllers(old(self)@, *event),
            r == spec_state_event_reset(old(self)@, *event),
    {
        let xr_controller = event.xr_controller;
        match &event.state {
            XrControllerState::Connected(info) | XrControllerState::Tracking(info) => {
                if !self.contains(xr_controller) {
                    let info = XrControllerInfo { name: info.name.clone() };
                    self.register(xr_controller, info);
                    Some(
                        XrControllerInputReset {
                            xr_controller,
                            kind: XrControllerResetKind::Connected,
                        },
                    )
                } else {
                    None
                }
            },
            XrControllerState::Disconnected => {
                self.deregister(xr_controller);
                Some(
                    XrControllerInputReset {
                        xr_controller,
                        kind: XrControllerResetKind::Disconnected,
                    },
                )
            },
        }
    }

    /// Applies a sequence of changes of connection state in order, and returns
    /// the resets they call for, in order.
    pub fn handle_state_events(&mut self, events: &Vec<XrControllerStateChangedEvent>) -> (r: Vec<
        XrControllerInputReset,
    >)
        ensures
            final(self)@ == spec_controllers_after(old(self)@, events@),
            r@ == spec_resets_after(old(self)@, events@),
    {
        let ghost start = self@;
        let mut r: Vec<XrControllerInputReset> = Vec::new();
        let mut i: usize = 0;
        while i < events.len()
            invariant
                i <= events@.len(),
                self@ == spec_controllers_after(start, events@.take(i as int)),
                r@ == spec_resets_after(start, events@.take(i as int)),
            decreases events.len() - i,
        {
            proof {
                assert(events@.take(i as int + 1).drop_last() =~= events@.take(i as int));
            }
            match self.handle_state_event(&events[i]) {
                Some(reset) => r.push(reset),
                None => {},
            }
            i = i + 1;
        }
        assert(events@.take(i as int) =~= events@);
        r
    }
}

impl Default for XrControllers {
    fn default() -> (r: XrControllers)
        ensures
            r@ == Map::<XrController, Seq<char>>::empty(),
    {
        XrControllers::new()
    }
}

/// Where an analog reading lies relative to the threshold of a digital input.
#[derive(Debug, Clone, Copy, PartialEq, Eq, Hash, Structural)]
pub enum ThresholdSide {
    /// The reading is below the threshold.
    Below,
    /// The reading is above the threshold.
    Above,
    /// The reading is neither below nor above the threshold: it equals it, or
    /// cannot be compared with it.
    Neither,
}

/// What to do to the digital state of an input.
#[derive(Debug, Clone, Copy, PartialEq, Eq, Hash, Structural)]
pub enum DigitalInputAction {
    /// Register a press.
    Press,
    /// Register a release.
    Release,
    /// Leave the state as it is.
    Keep,
}

/// The effect of one analog reading on a digital input.
#[derive(Debug, Clone, Copy, PartialEq, Eq, Hash, Structural)]
pub struct DigitalInputStep {
    /// The digital state change to announce, if any.
    pub event: Option<DigitalInputState>,
    /// What to do to the digital state.
    pub action: DigitalInputAction,
}

/// The effect of a reading on `side` of the threshold, on an input that is
/// pressed or not: a reading below releases the input, and announces `Up` if
/// it was pressed; a reading above presses it, and announces `Down` if it was
/// not; a reading at the threshold changes nothing.
pub open spec fn spec_digital_input_step(was_pressed: bool, side: ThresholdSide) -> DigitalInputStep {
    match side {
        ThresholdSide::Below => DigitalInputStep {
            event: if was_pressed {
                Some(DigitalInputState::Up)
            } else {
                None
            },
            action: DigitalInputAction::Release,
        },
        ThresholdSide::Above => DigitalInputStep {
            event: if was_pressed {
                None
            } else {
                Some(DigitalInputState::Down)
            },
            action: DigitalInputAction::Press,
        },
        ThresholdSide::Neither => DigitalInputStep { event: None, action: DigitalInputAction::Keep },
    }
}

/// Returns the effect of a reading on `side` of the threshold on an input that
/// is pressed or not.
pub fn digital_input_step(was_pressed: bool, side: ThresholdSide) -> (r: DigitalInputStep)
    ensures
        r == spec_digital_input_step(was_pressed, side),
{
    match side {
        ThresholdSide::Below => DigitalInputStep {
            event: if was_pressed {
                Some(DigitalInputState::Up)
            } else {
                None
            },
            action: DigitalInputAction::Release,
        },
        ThresholdSide::Above => DigitalInputStep {
            event: if was_pressed {
                None
            } else {
                Some(DigitalInputState::Down)
            },
            action: DigitalInputAction::Press,
        },
        ThresholdSide::Neither => DigitalInputStep { event: None, action: DigitalInputAction::Keep },
    }
}

/// Returns the touch event to send and the action on the touch sensor's
/// digital state, for a reading on `side` of the touch threshold.
pub fn touch_input_step(touch: XrControllerTouch, was_pressed: bool, side: ThresholdSide) -> (r: (
    Option<XrControllerTouchInputEvent>,
    DigitalInputAction,
))
    ensures
        r.1 == spec_digital_input_step(was_pressed, side).action,
        r.0 == match spec_digital_input_step(was_pressed, side).event {
            Some(state) => Some(XrControllerTouchInputEvent { touch, state }),
            None => None,
        },
{
    let step = digital_input_step(was_pressed, side);
    let event = match step.event {
        Some(state) => Some(XrControllerTouchInputEvent { touch, state }),
        None => None,
    };
    (event, step.action)
}

/// Returns the press event to send and the action on the press sensor's
/// digital state, for a reading on `side` of the press threshold.
pub fn press_input_step(press: XrControllerPress, was_pressed: bool, side: ThresholdSide) -> (r: (
    Option<XrControllerPressInputEvent>,
    DigitalInputAction,
))
    ensures
        r.1 == spec_digital_input_step(was_pressed, side).action,
        r.0 == match spec_digital_input_step(was_pressed, side).event {
            Some(state) => Some(XrControllerPressInputEvent { press, state }),
            None => None,
        },
{
    let step = digital_input_step(was_pressed, side);
    let event = match step.event {
        Some(state) => Some(XrControllerPressInputEvent { press, state }),
        None => None,
    };
    (event, step.action)
}

/// An announced digital state always agrees with the action taken and differs
/// from the state before: `Down` only for a press of an input that was not
/// pressed, `Up` only for a release of an input that was pressed.
pub proof fn lemma_digital_event_marks_change(was_pressed: bool, side: ThresholdSide)
    ensures
        spec_digital_input_step(was_pressed, side).event == Some(DigitalInputState::Down) <==> (
        spec_digital_input_step(was_pressed, side).action == DigitalInputAction::Press
            && !was_pressed),
        spec_digital_input_step(was_pressed, side).event == Some(DigitalInputState::Up) <==> (
        spec_digital_input_step(was_pressed, side).action == DigitalInputAction::Release
            && was_pressed),
{
}


} // verus!
