//! Control events reported by a device backend.
//!
//! Analog controls carry their value as the raw bit pattern of the backend's
//! 64-bit float (`f64::to_bits`); this library never does arithmetic on it,
//! only stores and hands it back, so the bits are the faithful model.

use vstd::prelude::*;

verus! {

/// One reported change from a controller: a named boolean control with its
/// on/off state, a named analog control with its raw value bits, a numbered
/// button with its index and state, a disconnect marker, or a payload this
/// model does not name, kept as display text for diagnostics.
#[derive(Debug, Clone)]
pub enum ControlEvent {
    /// The device left; no further events follow from it.
    Disconnect,
    // Named boolean controls.
    Exit(bool),
    ActionA(bool),
    ActionB(bool),
    ActionC(bool),
    ActionH(bool),
    ActionV(bool),
    ActionD(bool),
    MenuL(bool),
    MenuR(bool),
    Joy(bool),
    Cam(bool),
    BumperL(bool),
    BumperR(bool),
    Up(bool),
    Down(bool),
    Left(bool),
    Right(bool),
    PovUp(bool),
    PovDown(bool),
    PovLeft(bool),
    PovRight(bool),
    HatUp(bool),
    HatDown(bool),
    HatLeft(bool),
    HatRight(bool),
    TrimUp(bool),
    TrimDown(bool),
    TrimLeft(bool),
    TrimRight(bool),
    MicUp(bool),
    MicDown(bool),
    MicLeft(bool),
    MicRight(bool),
    MicPush(bool),
    Trigger(bool),
    Bumper(bool),
    ActionM(bool),
    ActionL(bool),
    ActionR(bool),
    Pinky(bool),
    PinkyForward(bool),
    PinkyBackward(bool),
    FlapsUp(bool),
    FlapsDown(bool),
    BoatForward(bool),
    BoatBackward(bool),
    AutopilotPath(bool),
    AutopilotAlt(bool),
    EngineMotorL(bool),
    EngineMotorR(bool),
    EngineFuelFlowL(bool),
    EngineFuelFlowR(bool),
    EngineIgnitionL(bool),
    EngineIgnitionR(bool),
    SpeedbrakeBackward(bool),
    SpeedbrakeForward(bool),
    ChinaBackward(bool),
    ChinaForward(bool),
    Apu(bool),
    RadarAltimeter(bool),
    LandingGearSilence(bool),
    Eac(bool),
    AutopilotToggle(bool),
    ThrottleButton(bool),
    Mouse(bool),
    PaddleLeft(bool),
    PaddleRight(bool),
    PinkyLeft(bool),
    PinkyRight(bool),
    Context(bool),
    Dpi(bool),
    Scroll(bool),
    // Named analog controls; the payload is the value's raw f64 bit pattern.
    TriggerL(u64),
    TriggerR(u64),
    JoyX(u64),
    JoyY(u64),
    JoyZ(u64),
    CamX(u64),
    CamY(u64),
    CamZ(u64),
    Slew(u64),
    Throttle(u64),
    ThrottleL(u64),
    ThrottleR(u64),
    Volume(u64),
    Wheel(u64),
    Rudder(u64),
    Gas(u64),
    Brake(u64),
    MouseX(u64),
    MouseY(u64),
    ScrollX(u64),
    ScrollY(u64),
    ActionWheelX(u64),
    ActionWheelY(u64),
    /// A numbered button: its index, then its on/off state.
    Number(i8, bool),
    /// An event this model does not name, as display text for diagnostics.
    Unknown(String),
}

/// One event as it travels over the multiplex channel: the event itself,
/// stamped with the reporting device's display name and id.
#[derive(Debug, Clone)]
pub struct Ctl1Event {
    /// The control event the device reported.
    pub triggering_event: ControlEvent,
    /// The device's display name, as the backend reported it at connect time.
    pub ctl_name: String,
    /// The backend-assigned stable device id.
    pub ctl_id: u64,
}

impl Ctl1Event {
    /// Stamps an event with its device's name and id.
    pub fn new(event: ControlEvent, ctl_name: String, ctl_id: u64) -> (r: Ctl1Event)
        ensures
            r.triggering_event == event,
            r.ctl_name == ctl_name,
            r.ctl_id == ctl_id,
    {
        Ctl1Event { triggering_event: event, ctl_name, ctl_id }
    }
}

} // verus!
