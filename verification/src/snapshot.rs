//! Per-device snapshots: the last known value of every control, with
//! set/unset state per field, a monotonic disconnect flag, and a diagnostic
//! slot for the last unrecognized event.

use std::collections::HashMap;
use vstd::prelude::*;

use crate::event::ControlEvent;

verus! {

broadcast use vstd::std_specs::hash::group_hash_axioms;

/// The last known value of one control: an on/off state, or the raw bit
/// pattern of an analog value.
#[derive(Debug, Clone, Copy, PartialEq, Eq, Structural)]
pub enum FieldValue {
    /// An on/off control's state.
    Bool(bool),
    /// An analog control's value as raw f64 bits.
    Axis(u64),
}

/// Names one value slot of a snapshot. Numbered buttons form a family of
/// slots, one per index.
#[derive(Debug, Clone, Copy, PartialEq, Eq, Structural)]
pub enum FieldId {
    Exit,
    ActionA,
    ActionB,
    ActionC,
    ActionH,
    ActionV,
    ActionD,
    MenuL,
    MenuR,
    Joy,
    Cam,
    BumperL,
    BumperR,
    TriggerL,
    TriggerR,
    Up,
    Down,
    Left,
    Right,
    PovUp,
    PovDown,
    PovLeft,
    PovRight,
    HatUp,
    HatDown,
    HatLeft,
    HatRight,
    TrimUp,
    TrimDown,
    TrimLeft,
    TrimRight,
    MicUp,
    MicDown,
    MicLeft,
    MicRight,
    JoyX,
    JoyY,
    JoyZ,
    CamX,
    CamY,
    CamZ,
    Slew,
    Throttle,
    ThrottleL,
    ThrottleR,
    Volume,
    Wheel,
    Rudder,
    Gas,
    Brake,
    MicPush,
    Trigger,
    Bumper,
    ActionM,
    ActionL,
    ActionR,
    Pinky,
    PinkyForward,
    PinkyBackward,
    FlapsUp,
    FlapsDown,
    BoatForward,
    BoatBackward,
    AutopilotPath,
    AutopilotAlt,
    EngineMotorL,
    EngineMotorR,
    EngineFuelFlowL,
    EngineFuelFlowR,
    EngineIgniteL,
    EngineIgniteR,
    SpeedbrakeBackward,
    SpeedbrakeForward,
    ChinaBackward,
    ChinaForward,
    Apu,
    RadarAltimeter,
    LandingGearSilence,
    Eac,
    AutopilotToggle,
    ThrottleButton,
    MouseX,
    MouseY,
    Mouse,
    PaddleLeft,
    PaddleRight,
    PinkyLeft,
    PinkyRight,
    Context,
    Dpi,
    ScrollX,
    ScrollY,
    Scroll,
    ActionWheelX,
    ActionWheelY,
    /// The numbered-button slot with the given index.
    Number(i8),
}

/// The per-device snapshot: every field starts unset and is set once an event
/// for its control has been observed; a set field is never unset again.
/// `disconnected` starts false and only ever flips to true. `unknown_event`
/// keeps the display text of the last unrecognized event for diagnostics.
#[derive(Debug, Clone)]
pub struct CtlState {
    pub exit: Option<bool>,
    pub action_a: Option<bool>,
    pub action_b: Option<bool>,
    pub action_c: Option<bool>,
    pub action_h: Option<bool>,
    pub action_v: Option<bool>,
    pub action_d: Option<bool>,
    pub menu_l: Option<bool>,
    pub menu_r: Option<bool>,
    pub joy: Option<bool>,
    pub cam: Option<bool>,
    pub bumper_l: Option<bool>,
    pub bumper_r: Option<bool>,
    pub trigger_l: Option<u64>,
    pub trigger_r: Option<u64>,
    pub up: Option<bool>,
    pub down: Option<bool>,
    pub left: Option<bool>,
    pub right: Option<bool>,
    pub pov_up: Option<bool>,
    pub pov_down: Option<bool>,
    pub pov_left: Option<bool>,
    pub pov_right: Option<bool>,
    pub hat_up: Option<bool>,
    pub hat_down: Option<bool>,
    pub hat_left: Option<bool>,
    pub hat_right: Option<bool>,
    pub trim_up: Option<bool>,
    pub trim_down: Option<bool>,
    pub trim_left: Option<bool>,
    pub trim_right: Option<bool>,
    pub mic_up: Option<bool>,
    pub mic_down: Option<bool>,
    pub mic_left: Option<bool>,
    pub mic_right: Option<bool>,
    pub joy_x: Option<u64>,
    pub joy_y: Option<u64>,
    pub joy_z: Option<u64>,
    pub cam_x: Option<u64>,
    pub cam_y: Option<u64>,
    pub cam_z: Option<u64>,
    pub slew: Option<u64>,
    pub throttle: Option<u64>,
    pub throttle_l: Option<u64>,
    pub throttle_r: Option<u64>,
    pub volume: Option<u64>,
    pub wheel: Option<u64>,
    pub rudder: Option<u64>,
    pub gas: Option<u64>,
    pub brake: Option<u64>,
    pub mic_push: Option<bool>,
    pub trigger: Option<bool>,
    pub bumper: Option<u64>,
    pub action_m: Option<bool>,
    pub action_l: Option<bool>,
    pub action_r: Option<bool>,
    pub pinky: Option<bool>,
    pub pinky_forward: Option<bool>,
    pub pinky_backward: Option<bool>,
    pub flaps_up: Option<bool>,
    pub flaps_down: Option<bool>,
    pub boat_forward: Option<bool>,
    pub boat_backward: Option<bool>,
    pub autopilot_path: Option<bool>,
    pub autopilot_alt: Option<bool>,
    pub engine_motor_l: Option<bool>,
    pub engine_motor_r: Option<bool>,
    pub engine_fuel_flow_l: Option<bool>,
    pub engine_fuel_flow_r: Option<bool>,
    pub engine_ignite_l: Option<bool>,
    pub engine_ignite_r: Option<bool>,
    pub speedbrake_backward: Option<bool>,
    pub speedbrake_forward: Option<bool>,
    pub china_backward: Option<bool>,
    pub china_forward: Option<bool>,
    pub apu: Option<bool>,
    pub radar_altimeter: Option<bool>,
    pub landing_gear_silence: Option<bool>,
    pub eac: Option<bool>,
    pub autopilot_toggle: Option<bool>,
    pub throttle_button: Option<bool>,
    pub mouse_x: Option<u64>,
    pub mouse_y: Option<u64>,
    pub mouse: Option<bool>,
    pub paddle_left: Option<bool>,
    pub paddle_right: Option<bool>,
    pub pinky_left: Option<bool>,
    pub pinky_right: Option<bool>,
    pub context: Option<bool>,
    pub dpi: Option<bool>,
    pub scroll_x: Option<u64>,
    pub scroll_y: Option<u64>,
    pub scroll: Option<bool>,
    pub action_wheel_x: Option<u64>,
    pub action_wheel_y: Option<u64>,
    pub number: HashMap<i8, bool>,
    pub unknown_event: Option<String>,
    pub disconnected: bool,
}

/// An optional on/off state as an optional field value.
pub open spec fn of_bool(o: Option<bool>) -> Option<FieldValue> {
    match o {
        Some(b) => Some(FieldValue::Bool(b)),
        None => None,
    }
}

/// An optional analog value as an optional field value.
pub open spec fn of_axis(o: Option<u64>) -> Option<FieldValue> {
    match o {
        Some(a) => Some(FieldValue::Axis(a)),
        None => None,
    }
}

/// What snapshot `s` holds in slot `f`: `None` while the field is unset.
pub open spec fn field(s: CtlState, f: FieldId) -> Option<FieldValue> {
    match f {
        FieldId::Exit => of_bool(s.exit),
        FieldId::ActionA => of_bool(s.action_a),
        FieldId::ActionB => of_bool(s.action_b),
        FieldId::ActionC => of_bool(s.action_c),
        FieldId::ActionH => of_bool(s.action_h),
        FieldId::ActionV => of_bool(s.action_v),
        FieldId::ActionD => of_bool(s.action_d),
        FieldId::MenuL => of_bool(s.menu_l),
        FieldId::MenuR => of_bool(s.menu_r),
        FieldId::Joy => of_bool(s.joy),
        FieldId::Cam => of_bool(s.cam),
        FieldId::BumperL => of_bool(s.bumper_l),
        FieldId::BumperR => of_bool(s.bumper_r),
        FieldId::TriggerL => of_axis(s.trigger_l),
        FieldId::TriggerR => of_axis(s.trigger_r),
        FieldId::Up => of_bool(s.up),
        FieldId::Down => of_bool(s.down),
        FieldId::Left => of_bool(s.left),
        FieldId::Right => of_bool(s.right),
        FieldId::PovUp => of_bool(s.pov_up),
        FieldId::PovDown => of_bool(s.pov_down),
        FieldId::PovLeft => of_bool(s.pov_left),
        FieldId::PovRight => of_bool(s.pov_right),
        FieldId::HatUp => of_bool(s.hat_up),
        FieldId::HatDown => of_bool(s.hat_down),
        FieldId::HatLeft => of_bool(s.hat_left),
        FieldId::HatRight => of_bool(s.hat_right),
        FieldId::TrimUp => of_bool(s.trim_up),
        FieldId::TrimDown => of_bool(s.trim_down),
        FieldId::TrimLeft => of_bool(s.trim_left),
        FieldId::TrimRight => of_bool(s.trim_right),
        FieldId::MicUp => of_bool(s.mic_up),
        FieldId::MicDown => of_bool(s.mic_down),
        FieldId::MicLeft => of_bool(s.mic_left),
        FieldId::MicRight => of_bool(s.mic_right),
        FieldId::JoyX => of_axis(s.joy_x),
        FieldId::JoyY => of_axis(s.joy_y),
        FieldId::JoyZ => of_axis(s.joy_z),
        FieldId::CamX => of_axis(s.cam_x),
        FieldId::CamY => of_axis(s.cam_y),
        FieldId::CamZ => of_axis(s.cam_z),
        FieldId::Slew => of_axis(s.slew),
        FieldId::Throttle => of_axis(s.throttle),
        FieldId::ThrottleL => of_axis(s.throttle_l),
        FieldId::ThrottleR => of_axis(s.throttle_r),
        FieldId::Volume => of_axis(s.volume),
        FieldId::Wheel => of_axis(s.wheel),
        FieldId::Rudder => of_axis(s.rudder),
        FieldId::Gas => of_axis(s.gas),
        FieldId::Brake => of_axis(s.brake),
        FieldId::MicPush => of_bool(s.mic_push),
        FieldId::Trigger => of_bool(s.trigger),
        FieldId::Bumper => of_axis(s.bumper),
        FieldId::ActionM => of_bool(s.action_m),
        FieldId::ActionL => of_bool(s.action_l),
        FieldId::ActionR => of_bool(s.action_r),
        FieldId::Pinky => of_bool(s.pinky),
        FieldId::PinkyForward => of_bool(s.pinky_forward),
        FieldId::PinkyBackward => of_bool(s.pinky_backward),
        FieldId::FlapsUp => of_bool(s.flaps_up),
        FieldId::FlapsDown => of_bool(s.flaps_down),
        FieldId::BoatForward => of_bool(s.boat_forward),
        FieldId::BoatBackward => of_bool(s.boat_backward),
        FieldId::AutopilotPath => of_bool(s.autopilot_path),
        FieldId::AutopilotAlt => of_bool(s.autopilot_alt),
        FieldId::EngineMotorL => of_bool(s.engine_motor_l),
        FieldId::EngineMotorR => of_bool(s.engine_motor_r),
        FieldId::EngineFuelFlowL => of_bool(s.engine_fuel_flow_l),
        FieldId::EngineFuelFlowR => of_bool(s.engine_fuel_flow_r),
        FieldId::EngineIgniteL => of_bool(s.engine_ignite_l),
        FieldId::EngineIgniteR => of_bool(s.engine_ignite_r),
        FieldId::SpeedbrakeBackward => of_bool(s.speedbrake_backward),
        FieldId::SpeedbrakeForward => of_bool(s.speedbrake_forward),
        FieldId::ChinaBackward => of_bool(s.china_backward),
        FieldId::ChinaForward => of_bool(s.china_forward),
        FieldId::Apu => of_bool(s.apu),
        FieldId::RadarAltimeter => of_bool(s.radar_altimeter),
        FieldId::LandingGearSilence => of_bool(s.landing_gear_silence),
        FieldId::Eac => of_bool(s.eac),
        FieldId::AutopilotToggle => of_bool(s.autopilot_toggle),
        FieldId::ThrottleButton => of_bool(s.throttle_button),
        FieldId::MouseX => of_axis(s.mouse_x),
        FieldId::MouseY => of_axis(s.mouse_y),
        FieldId::Mouse => of_bool(s.mouse),
        FieldId::PaddleLeft => of_bool(s.paddle_left),
        FieldId::PaddleRight => of_bool(s.paddle_right),
        FieldId::PinkyLeft => of_bool(s.pinky_left),
        FieldId::PinkyRight => of_bool(s.pinky_right),
        FieldId::Context => of_bool(s.context),
        FieldId::Dpi => of_bool(s.dpi),
        FieldId::ScrollX => of_axis(s.scroll_x),
        FieldId::ScrollY => of_axis(s.scroll_y),
        FieldId::Scroll => of_bool(s.scroll),
        FieldId::ActionWheelX => of_axis(s.action_wheel_x),
        FieldId::ActionWheelY => of_axis(s.action_wheel_y),
        FieldId::Number(i) => {
            if s.number@.contains_key(i) {
                Some(FieldValue::Bool(s.number@[i]))
            } else {
                None
            }
        },
    }
}

/// The slot an event addresses, if it addresses one. A disconnect marker and
/// an unrecognized event address no value slot. The mapping has two aliases,
/// kept deliberately rather than "fixed": the generic bumper event lands in
/// the right-bumper slot, and the autopilot-altitude event lands in the
/// autopilot-path slot, so the bumper and autopilot-alt slots are never
/// addressed.
pub open spec fn field_of(e: ControlEvent) -> Option<FieldId> {
    match e {
        ControlEvent::Disconnect => None,
        ControlEvent::Unknown(_) => None,
        ControlEvent::Number(i, _) => Some(FieldId::Number(i)),
        ControlEvent::Exit(_) => Some(FieldId::Exit),
        ControlEvent::ActionA(_) => Some(FieldId::ActionA),
        ControlEvent::ActionB(_) => Some(FieldId::ActionB),
        ControlEvent::ActionC(_) => Some(FieldId::ActionC),
        ControlEvent::ActionH(_) => Some(FieldId::ActionH),
        ControlEvent::ActionV(_) => Some(FieldId::ActionV),
        ControlEvent::ActionD(_) => Some(FieldId::ActionD),
        ControlEvent::MenuL(_) => Some(FieldId::MenuL),
        ControlEvent::MenuR(_) => Some(FieldId::MenuR),
        ControlEvent::Joy(_) => Some(FieldId::Joy),
        ControlEvent::Cam(_) => Some(FieldId::Cam),
        ControlEvent::BumperL(_) => Some(FieldId::BumperL),
        ControlEvent::BumperR(_) => Some(FieldId::BumperR),
        ControlEvent::Bumper(_) => Some(FieldId::BumperR),
        ControlEvent::TriggerL(_) => Some(FieldId::TriggerL),
        ControlEvent::TriggerR(_) => Some(FieldId::TriggerR),
        ControlEvent::Up(_) => Some(FieldId::Up),
        ControlEvent::Down(_) => Some(FieldId::Down),
        ControlEvent::Left(_) => Some(FieldId::Left),
        ControlEvent::Right(_) => Some(FieldId::Right),
        ControlEvent::PovUp(_) => Some(FieldId::PovUp),
        ControlEvent::PovDown(_) => Some(FieldId::PovDown),
        ControlEvent::PovLeft(_) => Some(FieldId::PovLeft),
        ControlEvent::PovRight(_) => Some(FieldId::PovRight),
        ControlEvent::HatUp(_) => Some(FieldId::HatUp),
        ControlEvent::HatDown(_) => Some(FieldId::HatDown),
        ControlEvent::HatLeft(_) => Some(FieldId::HatLeft),
        ControlEvent::HatRight(_) => Some(FieldId::HatRight),
        ControlEvent::TrimUp(_) => Some(FieldId::TrimUp),
        ControlEvent::TrimDown(_) => Some(FieldId::TrimDown),
        ControlEvent::TrimLeft(_) => Some(FieldId::TrimLeft),
        ControlEvent::TrimRight(_) => Some(FieldId::TrimRight),
        ControlEvent::MicUp(_) => Some(FieldId::MicUp),
        ControlEvent::MicDown(_) => Some(FieldId::MicDown),
        ControlEvent::MicLeft(_) => Some(FieldId::MicLeft),
        ControlEvent::MicRight(_) => Some(FieldId::MicRight),
        ControlEvent::JoyX(_) => Some(FieldId::JoyX),
        ControlEvent::JoyY(_) => Some(FieldId::JoyY),
        ControlEvent::JoyZ(_) => Some(FieldId::JoyZ),
        ControlEvent::CamX(_) => Some(FieldId::CamX),
        ControlEvent::CamY(_) => Some(FieldId::CamY),
        ControlEvent::CamZ(_) => Some(FieldId::CamZ),
        ControlEvent::Slew(_) => Some(FieldId::Slew),
        ControlEvent::Throttle(_) => Some(FieldId::Throttle),
        ControlEvent::ThrottleL(_) => Some(FieldId::ThrottleL),
        ControlEvent::ThrottleR(_) => Some(FieldId::ThrottleR),
        ControlEvent::Volume(_) => Some(FieldId::Volume),
        ControlEvent::Wheel(_) => Some(FieldId::Wheel),
        ControlEvent::Rudder(_) => Some(FieldId::Rudder),
        ControlEvent::Gas(_) => Some(FieldId::Gas),
        ControlEvent::Brake(_) => Some(FieldId::Brake),
        ControlEvent::MicPush(_) => Some(FieldId::MicPush),
        ControlEvent::Trigger(_) => Some(FieldId::Trigger),
        ControlEvent::ActionM(_) => Some(FieldId::ActionM),
        ControlEvent::ActionL(_) => Some(FieldId::ActionL),
        ControlEvent::ActionR(_) => Some(FieldId::ActionR),
        ControlEvent::Pinky(_) => Some(FieldId::Pinky),
        ControlEvent::PinkyForward(_) => Some(FieldId::PinkyForward),
        ControlEvent::PinkyBackward(_) => Some(FieldId::PinkyBackward),
        ControlEvent::FlapsUp(_) => Some(FieldId::FlapsUp),
        ControlEvent::FlapsDown(_) => Some(FieldId::FlapsDown),
        ControlEvent::BoatForward(_) => Some(FieldId::BoatForward),
        ControlEvent::BoatBackward(_) => Some(FieldId::BoatBackward),
        ControlEvent::AutopilotPath(_) => Some(FieldId::AutopilotPath),
        ControlEvent::AutopilotAlt(_) => Some(FieldId::AutopilotPath),
        ControlEvent::EngineMotorL(_) => Some(FieldId::EngineMotorL),
        ControlEvent::EngineMotorR(_) => Some(FieldId::EngineMotorR),
        ControlEvent::EngineFuelFlowL(_) => Some(FieldId::EngineFuelFlowL),
        ControlEvent::EngineFuelFlowR(_) => Some(FieldId::EngineFuelFlowR),
        ControlEvent::EngineIgnitionL(_) => Some(FieldId::EngineIgniteL),
        ControlEvent::EngineIgnitionR(_) => Some(FieldId::EngineIgniteR),
        ControlEvent::SpeedbrakeBackward(_) => Some(FieldId::SpeedbrakeBackward),
        ControlEvent::SpeedbrakeForward(_) => Some(FieldId::SpeedbrakeForward),
        ControlEvent::ChinaBackward(_) => Some(FieldId::ChinaBackward),
        ControlEvent::ChinaForward(_) => Some(FieldId::ChinaForward),
        ControlEvent::Apu(_) => Some(FieldId::Apu),
        ControlEvent::RadarAltimeter(_) => Some(FieldId::RadarAltimeter),
        ControlEvent::LandingGearSilence(_) => Some(FieldId::LandingGearSilence),
        ControlEvent::Eac(_) => Some(FieldId::Eac),
        ControlEvent::AutopilotToggle(_) => Some(FieldId::AutopilotToggle),
        ControlEvent::ThrottleButton(_) => Some(FieldId::ThrottleButton),
        ControlEvent::MouseX(_) => Some(FieldId::MouseX),
        ControlEvent::MouseY(_) => Some(FieldId::MouseY),
        ControlEvent::Mouse(_) => Some(FieldId::Mouse),
        ControlEvent::PaddleLeft(_) => Some(FieldId::PaddleLeft),
        ControlEvent::PaddleRight(_) => Some(FieldId::PaddleRight),
        ControlEvent::PinkyLeft(_) => Some(FieldId::PinkyLeft),
        ControlEvent::PinkyRight(_) => Some(FieldId::PinkyRight),
        ControlEvent::Context(_) => Some(FieldId::Context),
        ControlEvent::Dpi(_) => Some(FieldId::Dpi),
        ControlEvent::ScrollX(_) => Some(FieldId::ScrollX),
        ControlEvent::ScrollY(_) => Some(FieldId::ScrollY),
        ControlEvent::Scroll(_) => Some(FieldId::Scroll),
        ControlEvent::ActionWheelX(_) => Some(FieldId::ActionWheelX),
        ControlEvent::ActionWheelY(_) => Some(FieldId::ActionWheelY),
    }
}

/// The value an event carries for the slot it addresses. Meaningless for the
/// disconnect marker and for unrecognized events, which address no slot.
pub open spec fn value_of(e: ControlEvent) -> FieldValue {
    match e {
        ControlEvent::Disconnect => FieldValue::Bool(false),
        ControlEvent::Unknown(_) => FieldValue::Bool(false),
        ControlEvent::Number(_, v) => FieldValue::Bool(v),
        ControlEvent::Exit(v) => FieldValue::Bool(v),
        ControlEvent::ActionA(v) => FieldValue::Bool(v),
        ControlEvent::ActionB(v) => FieldValue::Bool(v),
        ControlEvent::ActionC(v) => FieldValue::Bool(v),
        ControlEvent::ActionH(v) => FieldValue::Bool(v),
        ControlEvent::ActionV(v) => FieldValue::Bool(v),
        ControlEvent::ActionD(v) => FieldValue::Bool(v),
        ControlEvent::MenuL(v) => FieldValue::Bool(v),
        ControlEvent::MenuR(v) => FieldValue::Bool(v),
        ControlEvent::Joy(v) => FieldValue::Bool(v),
        ControlEvent::Cam(v) => FieldValue::Bool(v),
        ControlEvent::BumperL(v) => FieldValue::Bool(v),
        ControlEvent::BumperR(v) => FieldValue::Bool(v),
        ControlEvent::Bumper(v) => FieldValue::Bool(v),
        ControlEvent::TriggerL(v) => FieldValue::Axis(v),
        ControlEvent::TriggerR(v) => FieldValue::Axis(v),
        ControlEvent::Up(v) => FieldValue::Bool(v),
        ControlEvent::Down(v) => FieldValue::Bool(v),
        ControlEvent::Left(v) => FieldValue::Bool(v),
        ControlEvent::Right(v) => FieldValue::Bool(v),
        ControlEvent::PovUp(v) => FieldValue::Bool(v),
        ControlEvent::PovDown(v) => FieldValue::Bool(v),
        ControlEvent::PovLeft(v) => FieldValue::Bool(v),
        ControlEvent::PovRight(v) => FieldValue::Bool(v),
        ControlEvent::HatUp(v) => FieldValue::Bool(v),
        ControlEvent::HatDown(v) => FieldValue::Bool(v),
        ControlEvent::HatLeft(v) => FieldValue::Bool(v),
        ControlEvent::HatRight(v) => FieldValue::Bool(v),
        ControlEvent::TrimUp(v) => FieldValue::Bool(v),
        ControlEvent::TrimDown(v) => FieldValue::Bool(v),
        ControlEvent::TrimLeft(v) => FieldValue::Bool(v),
        ControlEvent::TrimRight(v) => FieldValue::Bool(v),
        ControlEvent::MicUp(v) => FieldValue::Bool(v),
        ControlEvent::MicDown(v) => FieldValue::Bool(v),
        ControlEvent::MicLeft(v) => FieldValue::Bool(v),
        ControlEvent::MicRight(v) => FieldValue::Bool(v),
        ControlEvent::JoyX(v) => FieldValue::Axis(v),
        ControlEvent::JoyY(v) => FieldValue::Axis(v),
        ControlEvent::JoyZ(v) => FieldValue::Axis(v),
        ControlEvent::CamX(v) => FieldValue::Axis(v),
        ControlEvent::CamY(v) => FieldValue::Axis(v),
        ControlEvent::CamZ(v) => FieldValue::Axis(v),
        ControlEvent::Slew(v) => FieldValue::Axis(v),
        ControlEvent::Throttle(v) => FieldValue::Axis(v),
        ControlEvent::ThrottleL(v) => FieldValue::Axis(v),
        ControlEvent::ThrottleR(v) => FieldValue::Axis(v),
        ControlEvent::Volume(v) => FieldValue::Axis(v),
        ControlEvent::Wheel(v) => FieldValue::Axis(v),
        ControlEvent::Rudder(v) => FieldValue::Axis(v),
        ControlEvent::Gas(v) => FieldValue::Axis(v),
        ControlEvent::Brake(v) => FieldValue::Axis(v),
        ControlEvent::MicPush(v) => FieldValue::Bool(v),
        ControlEvent::Trigger(v) => FieldValue::Bool(v),
        ControlEvent::ActionM(v) => FieldValue::Bool(v),
        ControlEvent::ActionL(v) => FieldValue::Bool(v),
        ControlEvent::ActionR(v) => FieldValue::Bool(v),
        ControlEvent::Pinky(v) => FieldValue::Bool(v),
        ControlEvent::PinkyForward(v) => FieldValue::Bool(v),
        ControlEvent::PinkyBackward(v) => FieldValue::Bool(v),
        ControlEvent::FlapsUp(v) => FieldValue::Bool(v),
        ControlEvent::FlapsDown(v) => FieldValue::Bool(v),
        ControlEvent::BoatForward(v) => FieldValue::Bool(v),
        ControlEvent::BoatBackward(v) => FieldValue::Bool(v),
        ControlEvent::AutopilotPath(v) => FieldValue::Bool(v),
        ControlEvent::AutopilotAlt(v) => FieldValue::Bool(v),
        ControlEvent::EngineMotorL(v) => FieldValue::Bool(v),
        ControlEvent::EngineMotorR(v) => FieldValue::Bool(v),
        ControlEvent::EngineFuelFlowL(v) => FieldValue::Bool(v),
        ControlEvent::EngineFuelFlowR(v) => FieldValue::Bool(v),
        ControlEvent::EngineIgnitionL(v) => FieldValue::Bool(v),
        ControlEvent::EngineIgnitionR(v) => FieldValue::Bool(v),
        ControlEvent::SpeedbrakeBackward(v) => FieldValue::Bool(v),
        ControlEvent::SpeedbrakeForward(v) => FieldValue::Bool(v),
        ControlEvent::ChinaBackward(v) => FieldValue::Bool(v),
        ControlEvent::ChinaForward(v) => FieldValue::Bool(v),
        ControlEvent::Apu(v) => FieldValue::Bool(v),
        ControlEvent::RadarAltimeter(v) => FieldValue::Bool(v),
        ControlEvent::LandingGearSilence(v) => FieldValue::Bool(v),
        ControlEvent::Eac(v) => FieldValue::Bool(v),
        ControlEvent::AutopilotToggle(v) => FieldValue::Bool(v),
        ControlEvent::ThrottleButton(v) => FieldValue::Bool(v),
        ControlEvent::MouseX(v) => FieldValue::Axis(v),
        ControlEvent::MouseY(v) => FieldValue::Axis(v),
        ControlEvent::Mouse(v) => FieldValue::Bool(v),
        ControlEvent::PaddleLeft(v) => FieldValue::Bool(v),
        ControlEvent::PaddleRight(v) => FieldValue::Bool(v),
        ControlEvent::PinkyLeft(v) => FieldValue::Bool(v),
        ControlEvent::PinkyRight(v) => FieldValue::Bool(v),
        ControlEvent::Context(v) => FieldValue::Bool(v),
        ControlEvent::Dpi(v) => FieldValue::Bool(v),
        ControlEvent::ScrollX(v) => FieldValue::Axis(v),
        ControlEvent::ScrollY(v) => FieldValue::Axis(v),
        ControlEvent::Scroll(v) => FieldValue::Bool(v),
        ControlEvent::ActionWheelX(v) => FieldValue::Axis(v),
        ControlEvent::ActionWheelY(v) => FieldValue::Axis(v),
    }
}

/// The named slots that hold an on/off state.
pub open spec fn is_bool_field(f: FieldId) -> bool {
    match f {
        FieldId::Exit => true,
        FieldId::ActionA => true,
        FieldId::ActionB => true,
        FieldId::ActionC => true,
        FieldId::ActionH => true,
        FieldId::ActionV => true,
        FieldId::ActionD => true,
        FieldId::MenuL => true,
        FieldId::MenuR => true,
        FieldId::Joy => true,
        FieldId::Cam => true,
        FieldId::BumperL => true,
        FieldId::BumperR => true,
        FieldId::Up => true,
        FieldId::Down => true,
        FieldId::Left => true,
        FieldId::Right => true,
        FieldId::PovUp => true,
        FieldId::PovDown => true,
        FieldId::PovLeft => true,
        FieldId::PovRight => true,
        FieldId::HatUp => true,
        FieldId::HatDown => true,
        FieldId::HatLeft => true,
        FieldId::HatRight => true,
        FieldId::TrimUp => true,
        FieldId::TrimDown => true,
        FieldId::TrimLeft => true,
        FieldId::TrimRight => true,
        FieldId::MicUp => true,
        FieldId::MicDown => true,
        FieldId::MicLeft => true,
        FieldId::MicRight => true,
        FieldId::MicPush => true,
        FieldId::Trigger => true,
        FieldId::ActionM => true,
        FieldId::ActionL => true,
        FieldId::ActionR => true,
        FieldId::Pinky => true,
        FieldId::PinkyForward => true,
        FieldId::PinkyBackward => true,
        FieldId::FlapsUp => true,
        FieldId::FlapsDown => true,
        FieldId::BoatForward => true,
        FieldId::BoatBackward => true,
        FieldId::AutopilotPath => true,
        FieldId::AutopilotAlt => true,
        FieldId::EngineMotorL => true,
        FieldId::EngineMotorR => true,
        FieldId::EngineFuelFlowL => true,
        FieldId::EngineFuelFlowR => true,
        FieldId::EngineIgniteL => true,
        FieldId::EngineIgniteR => true,
        FieldId::SpeedbrakeBackward => true,
        FieldId::SpeedbrakeForward => true,
        FieldId::ChinaBackward => true,
        FieldId::ChinaForward => true,
        FieldId::Apu => true,
        FieldId::RadarAltimeter => true,
        FieldId::LandingGearSilence => true,
        FieldId::Eac => true,
        FieldId::AutopilotToggle => true,
        FieldId::ThrottleButton => true,
        FieldId::Mouse => true,
        FieldId::PaddleLeft => true,
        FieldId::PaddleRight => true,
        FieldId::PinkyLeft => true,
        FieldId::PinkyRight => true,
        FieldId::Context => true,
        FieldId::Dpi => true,
        FieldId::Scroll => true,
        _ => false,
    }
}

/// The named slots that hold an analog value.
pub open spec fn is_axis_field(f: FieldId) -> bool {
    match f {
        FieldId::TriggerL => true,
        FieldId::TriggerR => true,
        FieldId::JoyX => true,
        FieldId::JoyY => true,
        FieldId::JoyZ => true,
        FieldId::CamX => true,
        FieldId::CamY => true,
        FieldId::CamZ => true,
        FieldId::Slew => true,
        FieldId::Throttle => true,
        FieldId::ThrottleL => true,
        FieldId::ThrottleR => true,
        FieldId::Volume => true,
        FieldId::Wheel => true,
        FieldId::Rudder => true,
        FieldId::Gas => true,
        FieldId::Brake => true,
        FieldId::Bumper => true,
        FieldId::MouseX => true,
        FieldId::MouseY => true,
        FieldId::ScrollX => true,
        FieldId::ScrollY => true,
        FieldId::ActionWheelX => true,
        FieldId::ActionWheelY => true,
        _ => false,
    }
}

/// Every value slot of `a` holds what the same slot of `b` holds.
pub open spec fn fields_agree(a: CtlState, b: CtlState) -> bool {
    forall|f: FieldId| field(a, f) == field(b, f)
}

/// A snapshot with nothing observed yet: every value slot unset, not
/// disconnected, no diagnostic entry.
pub open spec fn unset(s: CtlState) -> bool {
    &&& forall|f: FieldId| field(s, f) is None
    &&& !s.disconnected
    &&& s.unknown_event is None
}

/// How one applied event relates the prior snapshot to the next one: the
/// addressed slot (if any) now holds the carried value, every other slot is
/// unchanged, the disconnect flag is the prior one or-ed with whether this is
/// the disconnect marker, and the diagnostic slot is overwritten exactly by
/// an unrecognized event.
pub open spec fn applies(prior: CtlState, e: ControlEvent, r: CtlState) -> bool {
    &&& forall|f: FieldId| field_of(e) != Some(f) ==> field(r, f) == field(prior, f)
    &&& (field_of(e) matches Some(f) ==> field(r, f) == Some(value_of(e)))
    &&& r.disconnected == (prior.disconnected || e is Disconnect)
    &&& r.unknown_event == (match e {
        ControlEvent::Unknown(d) => Some(d),
        _ => prior.unknown_event,
    })
}

impl CtlState {
    /// A snapshot with nothing observed yet.
    pub fn new() -> (r: CtlState)
        ensures
            unset(r),
    {
        CtlState {
            exit: None,
            action_a: None,
            action_b: None,
            action_c: None,
            action_h: None,
            action_v: None,
            action_d: None,
            menu_l: None,
            menu_r: None,
            joy: None,
            cam: None,
            bumper_l: None,
            bumper_r: None,
            trigger_l: None,
            trigger_r: None,
            up: None,
            down: None,
            left: None,
            right: None,
            pov_up: None,
            pov_down: None,
            pov_left: None,
            pov_right: None,
            hat_up: None,
            hat_down: None,
            hat_left: None,
            hat_right: None,
            trim_up: None,
            trim_down: None,
            trim_left: None,
            trim_right: None,
            mic_up: None,
            mic_down: None,
            mic_left: None,
            mic_right: None,
            joy_x: None,
            joy_y: None,
            joy_z: None,
            cam_x: None,
            cam_y: None,
            cam_z: None,
            slew: None,
            throttle: None,
            throttle_l: None,
            throttle_r: None,
            volume: None,
            wheel: None,
            rudder: None,
            gas: None,
            brake: None,
            mic_push: None,
            trigger: None,
            bumper: None,
            action_m: None,
            action_l: None,
            action_r: None,
            pinky: None,
            pinky_forward: None,
            pinky_backward: None,
            flaps_up: None,
            flaps_down: None,
            boat_forward: None,
            boat_backward: None,
            autopilot_path: None,
            autopilot_alt: None,
            engine_motor_l: None,
            engine_motor_r: None,
            engine_fuel_flow_l: None,
            engine_fuel_flow_r: None,
            engine_ignite_l: None,
            engine_ignite_r: None,
            speedbrake_backward: None,
            speedbrake_forward: None,
            china_backward: None,
            china_forward: None,
            apu: None,
            radar_altimeter: None,
            landing_gear_silence: None,
            eac: None,
            autopilot_toggle: None,
            throttle_button: None,
            mouse_x: None,
            mouse_y: None,
            mouse: None,
            paddle_left: None,
            paddle_right: None,
            pinky_left: None,
            pinky_right: None,
            context: None,
            dpi: None,
            scroll_x: None,
            scroll_y: None,
            scroll: None,
            action_wheel_x: None,
            action_wheel_y: None,
            number: HashMap::new(),
            unknown_event: None,
            disconnected: false,
        }
    }

    /// A field-for-field copy of this snapshot.
    pub fn snapshot_copy(&self) -> (r: CtlState)
        ensures
            fields_agree(r, *self),
            r.disconnected == self.disconnected,
            r.unknown_event == self.unknown_event,
    {
        let diag: Option<String> = match &self.unknown_event {
            Some(s) => Some(s.clone()),
            None => None,
        };
        CtlState {
            exit: self.exit,
            action_a: self.action_a,
            action_b: self.action_b,
            action_c: self.action_c,
            action_h: self.action_h,
            action_v: self.action_v,
            action_d: self.action_d,
            menu_l: self.menu_l,
            menu_r: self.menu_r,
            joy: self.joy,
            cam: self.cam,
            bumper_l: self.bumper_l,
            bumper_r: self.bumper_r,
            trigger_l: self.trigger_l,
            trigger_r: self.trigger_r,
            up: self.up,
            down: self.down,
            left: self.left,
            right: self.right,
            pov_up: self.pov_up,
            pov_down: self.pov_down,
            pov_left: self.pov_left,
            pov_right: self.pov_right,
            hat_up: self.hat_up,
            hat_down: self.hat_down,
            hat_left: self.hat_left,
            hat_right: self.hat_right,
            trim_up: self.trim_up,
            trim_down: self.trim_down,
            trim_left: self.trim_left,
            trim_right: self.trim_right,
            mic_up: self.mic_up,
            mic_down: self.mic_down,
            mic_left: self.mic_left,
            mic_right: self.mic_right,
            joy_x: self.joy_x,
            joy_y: self.joy_y,
            joy_z: self.joy_z,
            cam_x: self.cam_x,
            cam_y: self.cam_y,
            cam_z: self.cam_z,
            slew: self.slew,
            throttle: self.throttle,
            throttle_l: self.throttle_l,
            throttle_r: self.throttle_r,
            volume: self.volume,
            wheel: self.wheel,
            rudder: self.rudder,
            gas: self.gas,
            brake: self.brake,
            mic_push: self.mic_push,
            trigger: self.trigger,
            bumper: self.bumper,
            action_m: self.action_m,
            action_l: self.action_l,
            action_r: self.action_r,
            pinky: self.pinky,
            pinky_forward: self.pinky_forward,
            pinky_backward: self.pinky_backward,
            flaps_up: self.flaps_up,
            flaps_down: self.flaps_down,
            boat_forward: self.boat_forward,
            boat_backward: self.boat_backward,
            autopilot_path: self.autopilot_path,
            autopilot_alt: self.autopilot_alt,
            engine_motor_l: self.engine_motor_l,
            engine_motor_r: self.engine_motor_r,
            engine_fuel_flow_l: self.engine_fuel_flow_l,
            engine_fuel_flow_r: self.engine_fuel_flow_r,
            engine_ignite_l: self.engine_ignite_l,
            engine_ignite_r: self.engine_ignite_r,
            speedbrake_backward: self.speedbrake_backward,
            speedbrake_forward: self.speedbrake_forward,
            china_backward: self.china_backward,
            china_forward: self.china_forward,
            apu: self.apu,
            radar_altimeter: self.radar_altimeter,
            landing_gear_silence: self.landing_gear_silence,
            eac: self.eac,
            autopilot_toggle: self.autopilot_toggle,
            throttle_button: self.throttle_button,
            mouse_x: self.mouse_x,
            mouse_y: self.mouse_y,
            mouse: self.mouse,
            paddle_left: self.paddle_left,
            paddle_right: self.paddle_right,
            pinky_left: self.pinky_left,
            pinky_right: self.pinky_right,
            context: self.context,
            dpi: self.dpi,
            scroll_x: self.scroll_x,
            scroll_y: self.scroll_y,
            scroll: self.scroll,
            action_wheel_x: self.action_wheel_x,
            action_wheel_y: self.action_wheel_y,
            number: self.number.clone(),
            unknown_event: diag,
            disconnected: self.disconnected,
        }
    }

    /// Writes `v` into the named on/off slot `f`, leaving every other slot,
    /// the disconnect flag and the diagnostic slot as they are.
    #[verifier::rlimit(60)]
    fn set_bool(self, f: FieldId, v: bool) -> (r: CtlState)
        requires
            is_bool_field(f),
        ensures
            field(r, f) == Some(FieldValue::Bool(v)),
            forall|g: FieldId| g != f ==> field(r, g) == field(self, g),
            r.disconnected == self.disconnected,
            r.unknown_event == self.unknown_event,
    {
        let mut r = self;
        match f {
            FieldId::Exit => {
                r.exit = Some(v);
            },
            FieldId::ActionA => {
                r.action_a = Some(v);
            },
            FieldId::ActionB => {
                r.action_b = Some(v);
            },
            FieldId::ActionC => {
                r.action_c = Some(v);
            },
            FieldId::ActionH => {
                r.action_h = Some(v);
            },
            FieldId::ActionV => {
                r.action_v = Some(v);
            },
            FieldId::ActionD => {
                r.action_d = Some(v);
            },
            FieldId::MenuL => {
                r.menu_l = Some(v);
            },
            FieldId::MenuR => {
                r.menu_r = Some(v);
            },
            FieldId::Joy => {
                r.joy = Some(v);
            },
            FieldId::Cam => {
                r.cam = Some(v);
            },
            FieldId::BumperL => {
                r.bumper_l = Some(v);
            },
            FieldId::BumperR => {
                r.bumper_r = Some(v);
            },
            FieldId::Up => {
                r.up = Some(v);
            },
            FieldId::Down => {
                r.down = Some(v);
            },
            FieldId::Left => {
                r.left = Some(v);
            },
            FieldId::Right => {
                r.right = Some(v);
            },
            FieldId::PovUp => {
                r.pov_up = Some(v);
            },
            FieldId::PovDown => {
                r.pov_down = Some(v);
            },
            FieldId::PovLeft => {
                r.pov_left = Some(v);
            },
            FieldId::PovRight => {
                r.pov_right = Some(v);
            },
            FieldId::HatUp => {
                r.hat_up = Some(v);
            },
            FieldId::HatDown => {
                r.hat_down = Some(v);
            },
            FieldId::HatLeft => {
                r.hat_left = Some(v);
            },
            FieldId::HatRight => {
                r.hat_right = Some(v);
            },
            FieldId::TrimUp => {
                r.trim_up = Some(v);
            },
            FieldId::TrimDown => {
                r.trim_down = Some(v);
            },
            FieldId::TrimLeft => {
                r.trim_left = Some(v);
            },
            FieldId::TrimRight => {
                r.trim_right = Some(v);
            },
            FieldId::MicUp => {
                r.mic_up = Some(v);
            },
            FieldId::MicDown => {
                r.mic_down = Some(v);
            },
            FieldId::MicLeft => {
                r.mic_left = Some(v);
            },
            FieldId::MicRight => {
                r.mic_right = Some(v);
            },
            FieldId::MicPush => {
                r.mic_push = Some(v);
            },
            FieldId::Trigger => {
                r.trigger = Some(v);
            },
            FieldId::ActionM => {
                r.action_m = Some(v);
            },
            FieldId::ActionL => {
                r.action_l = Some(v);
            },
            FieldId::ActionR => {
                r.action_r = Some(v);
            },
            FieldId::Pinky => {
                r.pinky = Some(v);
            },
            FieldId::PinkyForward => {
                r.pinky_forward = Some(v);
            },
            FieldId::PinkyBackward => {
                r.pinky_backward = Some(v);
            },
            FieldId::FlapsUp => {
                r.flaps_up = Some(v);
            },
            FieldId::FlapsDown => {
                r.flaps_down = Some(v);
            },
            FieldId::BoatForward => {
                r.boat_forward = Some(v);
            },
            FieldId::BoatBackward => {
                r.boat_backward = Some(v);
            },
            FieldId::AutopilotPath => {
                r.autopilot_path = Some(v);
            },
            FieldId::AutopilotAlt => {
                r.autopilot_alt = Some(v);
            },
            FieldId::EngineMotorL => {
                r.engine_motor_l = Some(v);
            },
            FieldId::EngineMotorR => {
                r.engine_motor_r = Some(v);
            },
            FieldId::EngineFuelFlowL => {
                r.engine_fuel_flow_l = Some(v);
            },
            FieldId::EngineFuelFlowR => {
                r.engine_fuel_flow_r = Some(v);
            },
            FieldId::EngineIgniteL => {
                r.engine_ignite_l = Some(v);
            },
            FieldId::EngineIgniteR => {
                r.engine_ignite_r = Some(v);
            },
            FieldId::SpeedbrakeBackward => {
                r.speedbrake_backward = Some(v);
            },
            FieldId::SpeedbrakeForward => {
                r.speedbrake_forward = Some(v);
            },
            FieldId::ChinaBackward => {
                r.china_backward = Some(v);
            },
            FieldId::ChinaForward => {
                r.china_forward = Some(v);
            },
            FieldId::Apu => {
                r.apu = Some(v);
            },
            FieldId::RadarAltimeter => {
                r.radar_altimeter = Some(v);
            },
            FieldId::LandingGearSilence => {
                r.landing_gear_silence = Some(v);
            },
            FieldId::Eac => {
                r.eac = Some(v);
            },
            FieldId::AutopilotToggle => {
                r.autopilot_toggle = Some(v);
            },
            FieldId::ThrottleButton => {
                r.throttle_button = Some(v);
            },
            FieldId::Mouse => {
                r.mouse = Some(v);
            },
            FieldId::PaddleLeft => {
                r.paddle_left = Some(v);
            },
            FieldId::PaddleRight => {
                r.paddle_right = Some(v);
            },
            FieldId::PinkyLeft => {
                r.pinky_left = Some(v);
            },
            FieldId::PinkyRight => {
                r.pinky_right = Some(v);
            },
            FieldId::Context => {
                r.context = Some(v);
            },
            FieldId::Dpi => {
                r.dpi = Some(v);
            },
            FieldId::Scroll => {
                r.scroll = Some(v);
            },
            _ => {
                proof {
                    assert(false);
                }
            },
        }
        r
    }

    /// Writes `v` into the named analog slot `f`, leaving every other slot,
    /// the disconnect flag and the diagnostic slot as they are.
    #[verifier::rlimit(60)]
    fn set_axis(self, f: FieldId, v: u64) -> (r: CtlState)
        requires
            is_axis_field(f),
        ensures
            field(r, f) == Some(FieldValue::Axis(v)),
            forall|g: FieldId| g != f ==> field(r, g) == field(self, g),
            r.disconnected == self.disconnected,
            r.unknown_event == self.unknown_event,
    {
        let mut r = self;
        match f {
            FieldId::TriggerL => {
                r.trigger_l = Some(v);
            },
            FieldId::TriggerR => {
                r.trigger_r = Some(v);
            },
            FieldId::JoyX => {
                r.joy_x = Some(v);
            },
            FieldId::JoyY => {
                r.joy_y = Some(v);
            },
            FieldId::JoyZ => {
                r.joy_z = Some(v);
            },
            FieldId::CamX => {
                r.cam_x = Some(v);
            },
            FieldId::CamY => {
                r.cam_y = Some(v);
            },
            FieldId::CamZ => {
                r.cam_z = Some(v);
            },
            FieldId::Slew => {
                r.slew = Some(v);
            },
            FieldId::Throttle => {
                r.throttle = Some(v);
            },
            FieldId::ThrottleL => {
                r.throttle_l = Some(v);
            },
            FieldId::ThrottleR => {
                r.throttle_r = Some(v);
            },
            FieldId::Volume => {
                r.volume = Some(v);
            },
            FieldId::Wheel => {
                r.wheel = Some(v);
            },
            FieldId::Rudder => {
                r.rudder = Some(v);
            },
            FieldId::Gas => {
                r.gas = Some(v);
            },
            FieldId::Brake => {
                r.brake = Some(v);
            },
            FieldId::Bumper => {
                r.bumper = Some(v);
            },
            FieldId::MouseX => {
                r.mouse_x = Some(v);
            },
            FieldId::MouseY => {
                r.mouse_y = Some(v);
            },
            FieldId::ScrollX => {
                r.scroll_x = Some(v);
            },
            FieldId::ScrollY => {
                r.scroll_y = Some(v);
            },
            FieldId::ActionWheelX => {
                r.action_wheel_x = Some(v);
            },
            FieldId::ActionWheelY => {
                r.action_wheel_y = Some(v);
            },
            _ => {
                proof {
                    assert(false);
                }
            },
        }
        r
    }

    /// Writes `pressed` into the numbered-button slot with index `idx`,
    /// leaving every other slot (other indices included), the disconnect flag
    /// and the diagnostic slot as they are.
    fn set_number(self, idx: i8, pressed: bool) -> (r: CtlState)
        ensures
            field(r, FieldId::Number(idx)) == Some(FieldValue::Bool(pressed)),
            forall|g: FieldId| g != FieldId::Number(idx) ==> field(r, g) == field(self, g),
            r.disconnected == self.disconnected,
            r.unknown_event == self.unknown_event,
    {
        let mut r = self;
        r.number.insert(idx, pressed);
        r
    }

    /// The pure update step of the event model: a new snapshot equal to this
    /// one except for what `event` addresses. The slot named by the event
    /// takes the carried value; the disconnect marker flips the disconnect
    /// flag; an unrecognized event lands in the diagnostic slot; everything
    /// else persists.
    pub fn updated(&self, event: ControlEvent) -> (r: CtlState)
        ensures
            applies(*self, event, r),
    {
        let base = self.snapshot_copy();
        match event {
            ControlEvent::Disconnect => {
                let mut r = base;
                r.disconnected = true;
                r
            },
            ControlEvent::Unknown(d) => {
                let mut r = base;
                r.unknown_event = Some(d);
                r
            },
            ControlEvent::Number(i, v) => base.set_number(i, v),
            ControlEvent::Exit(v) => base.set_bool(FieldId::Exit, v),
            ControlEvent::ActionA(v) => base.set_bool(FieldId::ActionA, v),
            ControlEvent::ActionB(v) => base.set_bool(FieldId::ActionB, v),
            ControlEvent::ActionC(v) => base.set_bool(FieldId::ActionC, v),
            ControlEvent::ActionH(v) => base.set_bool(FieldId::ActionH, v),
            ControlEvent::ActionV(v) => base.set_bool(FieldId::ActionV, v),
            ControlEvent::ActionD(v) => base.set_bool(FieldId::ActionD, v),
            ControlEvent::MenuL(v) => base.set_bool(FieldId::MenuL, v),
            ControlEvent::MenuR(v) => base.set_bool(FieldId::MenuR, v),
            ControlEvent::Joy(v) => base.set_bool(FieldId::Joy, v),
            ControlEvent::Cam(v) => base.set_bool(FieldId::Cam, v),
            ControlEvent::BumperL(v) => base.set_bool(FieldId::BumperL, v),
            ControlEvent::BumperR(v) => base.set_bool(FieldId::BumperR, v),
            ControlEvent::Bumper(v) => base.set_bool(FieldId::BumperR, v),
            ControlEvent::Up(v) => base.set_bool(FieldId::Up, v),
            ControlEvent::Down(v) => base.set_bool(FieldId::Down, v),
            ControlEvent::Left(v) => base.set_bool(FieldId::Left, v),
            ControlEvent::Right(v) => base.set_bool(FieldId::Right, v),
            ControlEvent::PovUp(v) => base.set_bool(FieldId::PovUp, v),
            ControlEvent::PovDown(v) => base.set_bool(FieldId::PovDown, v),
            ControlEvent::PovLeft(v) => base.set_bool(FieldId::PovLeft, v),
            ControlEvent::PovRight(v) => base.set_bool(FieldId::PovRight, v),
            ControlEvent::HatUp(v) => base.set_bool(FieldId::HatUp, v),
            ControlEvent::HatDown(v) => base.set_bool(FieldId::HatDown, v),
            ControlEvent::HatLeft(v) => base.set_bool(FieldId::HatLeft, v),
            ControlEvent::HatRight(v) => base.set_bool(FieldId::HatRight, v),
            ControlEvent::TrimUp(v) => base.set_bool(FieldId::TrimUp, v),
            ControlEvent::TrimDown(v) => base.set_bool(FieldId::TrimDown, v),
            ControlEvent::TrimLeft(v) => base.set_bool(FieldId::TrimLeft, v),
            ControlEvent::TrimRight(v) => base.set_bool(FieldId::TrimRight, v),
            ControlEvent::MicUp(v) => base.set_bool(FieldId::MicUp, v),
            ControlEvent::MicDown(v) => base.set_bool(FieldId::MicDown, v),
            ControlEvent::MicLeft(v) => base.set_bool(FieldId::MicLeft, v),
            ControlEvent::MicRight(v) => base.set_bool(FieldId::MicRight, v),
            ControlEvent::MicPush(v) => base.set_bool(FieldId::MicPush, v),
            ControlEvent::Trigger(v) => base.set_bool(FieldId::Trigger, v),
            ControlEvent::ActionM(v) => base.set_bool(FieldId::ActionM, v),
            ControlEvent::ActionL(v) => base.set_bool(FieldId::ActionL, v),
            ControlEvent::ActionR(v) => base.set_bool(FieldId::ActionR, v),
            ControlEvent::Pinky(v) => base.set_bool(FieldId::Pinky, v),
            ControlEvent::PinkyForward(v) => base.set_bool(FieldId::PinkyForward, v),
            ControlEvent::PinkyBackward(v) => base.set_bool(FieldId::PinkyBackward, v),
            ControlEvent::FlapsUp(v) => base.set_bool(FieldId::FlapsUp, v),
            ControlEvent::FlapsDown(v) => base.set_bool(FieldId::FlapsDown, v),
            ControlEvent::BoatForward(v) => base.set_bool(FieldId::BoatForward, v),
            ControlEvent::BoatBackward(v) => base.set_bool(FieldId::BoatBackward, v),
            ControlEvent::AutopilotPath(v) => base.set_bool(FieldId::AutopilotPath, v),
            ControlEvent::AutopilotAlt(v) => base.set_bool(FieldId::AutopilotPath, v),
            ControlEvent::EngineMotorL(v) => base.set_bool(FieldId::EngineMotorL, v),
            ControlEvent::EngineMotorR(v) => base.set_bool(FieldId::EngineMotorR, v),
            ControlEvent::EngineFuelFlowL(v) => base.set_bool(FieldId::EngineFuelFlowL, v),
            ControlEvent::EngineFuelFlowR(v) => base.set_bool(FieldId::EngineFuelFlowR, v),
            ControlEvent::EngineIgnitionL(v) => base.set_bool(FieldId::EngineIgniteL, v),
            ControlEvent::EngineIgnitionR(v) => base.set_bool(FieldId::EngineIgniteR, v),
            ControlEvent::SpeedbrakeBackward(v) => base.set_bool(FieldId::SpeedbrakeBackward, v),
            ControlEvent::SpeedbrakeForward(v) => base.set_bool(FieldId::SpeedbrakeForward, v),
            ControlEvent::ChinaBackward(v) => base.set_bool(FieldId::ChinaBackward, v),
            ControlEvent::ChinaForward(v) => base.set_bool(FieldId::ChinaForward, v),
            ControlEvent::Apu(v) => base.set_bool(FieldId::Apu, v),
            ControlEvent::RadarAltimeter(v) => base.set_bool(FieldId::RadarAltimeter, v),
            ControlEvent::LandingGearSilence(v) => base.set_bool(FieldId::LandingGearSilence, v),
            ControlEvent::Eac(v) => base.set_bool(FieldId::Eac, v),
            ControlEvent::AutopilotToggle(v) => base.set_bool(FieldId::AutopilotToggle, v),
            ControlEvent::ThrottleButton(v) => base.set_bool(FieldId::ThrottleButton, v),
            ControlEvent::Mouse(v) => base.set_bool(FieldId::Mouse, v),
            ControlEvent::PaddleLeft(v) => base.set_bool(FieldId::PaddleLeft, v),
            ControlEvent::PaddleRight(v) => base.set_bool(FieldId::PaddleRight, v),
            ControlEvent::PinkyLeft(v) => base.set_bool(FieldId::PinkyLeft, v),
            ControlEvent::PinkyRight(v) => base.set_bool(FieldId::PinkyRight, v),
            ControlEvent::Context(v) => base.set_bool(FieldId::Context, v),
            ControlEvent::Dpi(v) => base.set_bool(FieldId::Dpi, v),
            ControlEvent::Scroll(v) => base.set_bool(FieldId::Scroll, v),
            ControlEvent::TriggerL(v) => base.set_axis(FieldId::TriggerL, v),
            ControlEvent::TriggerR(v) => base.set_axis(FieldId::TriggerR, v),
            ControlEvent::JoyX(v) => base.set_axis(FieldId::JoyX, v),
            ControlEvent::JoyY(v) => base.set_axis(FieldId::JoyY, v),
            ControlEvent::JoyZ(v) => base.set_axis(FieldId::JoyZ, v),
            ControlEvent::CamX(v) => base.set_axis(FieldId::CamX, v),
            ControlEvent::CamY(v) => base.set_axis(FieldId::CamY, v),
            ControlEvent::CamZ(v) => base.set_axis(FieldId::CamZ, v),
            ControlEvent::Slew(v) => base.set_axis(FieldId::Slew, v),
            ControlEvent::Throttle(v) => base.set_axis(FieldId::Throttle, v),
            ControlEvent::ThrottleL(v) => base.set_axis(FieldId::ThrottleL, v),
            ControlEvent::ThrottleR(v) => base.set_axis(FieldId::ThrottleR, v),
            ControlEvent::Volume(v) => base.set_axis(FieldId::Volume, v),
            ControlEvent::Wheel(v) => base.set_axis(FieldId::Wheel, v),
            ControlEvent::Rudder(v) => base.set_axis(FieldId::Rudder, v),
            ControlEvent::Gas(v) => base.set_axis(FieldId::Gas, v),
            ControlEvent::Brake(v) => base.set_axis(FieldId::Brake, v),
            ControlEvent::MouseX(v) => base.set_axis(FieldId::MouseX, v),
            ControlEvent::MouseY(v) => base.set_axis(FieldId::MouseY, v),
            ControlEvent::ScrollX(v) => base.set_axis(FieldId::ScrollX, v),
            ControlEvent::ScrollY(v) => base.set_axis(FieldId::ScrollY, v),
            ControlEvent::ActionWheelX(v) => base.set_axis(FieldId::ActionWheelX, v),
            ControlEvent::ActionWheelY(v) => base.set_axis(FieldId::ActionWheelY, v),
        }
    }
}

impl Default for CtlState {
    /// A snapshot with nothing observed yet.
    fn default() -> (r: CtlState)
        ensures
            unset(r),
    {
        CtlState::new()
    }
}

/// Field update: an event addressing slot `f` with some carried value leaves
/// exactly `Some` of that value in `f`, and every other slot as it was.
pub proof fn lemma_field_update(prior: CtlState, e: ControlEvent, r: CtlState, f: FieldId)
    requires
        applies(prior, e, r),
        field_of(e) == Some(f),
    ensures
        field(r, f) == Some(value_of(e)),
        forall|g: FieldId| g != f ==> field(r, g) == field(prior, g),
{
}

/// Persistence: applying an event never unsets a slot, never clears the
/// disconnect flag, and never clears the diagnostic slot.
pub proof fn lemma_persistence(prior: CtlState, e: ControlEvent, r: CtlState, f: FieldId)
    requires
        applies(prior, e, r),
        field(prior, f) is Some,
    ensures
        field(r, f) is Some,
{
}

/// A run of applied events: `r` is reachable from `s` by applying the events
/// of `evs` in order.
pub open spec fn applies_all(s: CtlState, evs: Seq<ControlEvent>, r: CtlState) -> bool
    decreases evs.len(),
{
    if evs.len() == 0 {
        r == s
    } else {
        exists|mid: CtlState|
            #[trigger] applies(s, evs[0], mid) && applies_all(
                mid,
                evs.subrange(1, evs.len() as int),
                r,
            )
    }
}

/// Persistence over a whole run: once a slot is `Some`, no sequence of
/// subsequent events leaves it `None`.
pub proof fn lemma_persistence_run(s: CtlState, evs: Seq<ControlEvent>, r: CtlState, f: FieldId)
    requires
        applies_all(s, evs, r),
        field(s, f) is Some,
    ensures
        field(r, f) is Some,
    decreases evs.len(),
{
    if evs.len() > 0 {
        let mid = choose|mid: CtlState|
            #[trigger] applies(s, evs[0], mid) && applies_all(
                mid,
                evs.subrange(1, evs.len() as int),
                r,
            );
        lemma_persistence(s, evs[0], mid, f);
        lemma_persistence_run(mid, evs.subrange(1, evs.len() as int), r, f);
    }
}

/// Monotonicity of the non-slot parts: the disconnect flag never falls back
/// to false, and a filled diagnostic slot never empties.
pub proof fn lemma_flags_monotonic(prior: CtlState, e: ControlEvent, r: CtlState)
    requires
        applies(prior, e, r),
    ensures
        prior.disconnected ==> r.disconnected,
        prior.unknown_event is Some ==> r.unknown_event is Some,
{
}

/// Disconnect: the disconnect marker sets the flag and leaves every value
/// slot and the diagnostic slot exactly as they were.
pub proof fn lemma_disconnect(prior: CtlState, r: CtlState)
    requires
        applies(prior, ControlEvent::Disconnect, r),
    ensures
        r.disconnected,
        fields_agree(r, prior),
        r.unknown_event == prior.unknown_event,
{
}

/// Idempotence: after the same slot-addressing event is applied twice in a
/// row, the snapshots after the first and after the second application both
/// hold the carried value in the addressed slot; for a boolean-true event,
/// previous and current both read `Some(true)` after the second application.
pub proof fn lemma_event_idempotent(
    s0: CtlState,
    e: ControlEvent,
    s1: CtlState,
    s2: CtlState,
    f: FieldId,
)
    requires
        applies(s0, e, s1),
        applies(s1, e, s2),
        field_of(e) == Some(f),
    ensures
        field(s1, f) == Some(value_of(e)),
        field(s2, f) == Some(value_of(e)),
        field(s1, f) == field(s2, f),
{
}

} // verus!
