//! The vocabulary that the boards exchange: the CAN messages on the main
//! bus and the events on each board's event bus.
use vstd::prelude::*;

verus! {

/// A board of the pod.
#[derive(Clone, Copy, PartialEq, Eq, Structural, Debug)]
pub enum Board {
    Telemetry,
    Navigation,
    MotorControl,
    Pneumatics,
    HighPower,
    Sensors,
    Sensors1,
    Sensors2,
    TemperatureTester,
    StateMachineTester,
    Test,
}

/// Why a board raised an emergency.
#[allow(non_camel_case_types, clippy::upper_case_acronyms)]
#[derive(Clone, Copy, PartialEq, Eq, Structural, Debug)]
pub enum Reason {
    Unknown,
    IMD,
    Pressure,
    NoInitialHeartbeat,
    MissingHeartbeat,
    NoInitialBaseStationHeartbeat,
    MissingBaseStationHeartbeat,
    TemperatureLowerLimitFailure,
}

/// A heartbeat from one board to another.
#[derive(Clone, Copy, PartialEq, Eq, Structural, Debug)]
pub struct Heartbeat {
    pub from: Board,
    pub to: Board,
}

/// What a measurement reading measures.
#[derive(Clone, Copy, PartialEq, Eq, Structural, Debug)]
pub enum MeasurementId {
    ImdIsoCorrected,
    Velocity,
    Displacement,
    Acceleration,
    AccelerometerAvg,
    LpBms,
}

/// The value of a measurement reading. A float travels as its IEEE-754 bits.
#[derive(Clone, Copy, PartialEq, Eq, Structural, Debug)]
pub enum CanData {
    U16(u16),
    F32Bits(u32),
    Emergency(Reason),
}

/// A measurement that a board reports.
#[derive(Clone, Copy, PartialEq, Eq, Structural, Debug)]
pub struct MeasurementReading {
    pub reading: CanData,
    pub board: Board,
    pub measurement_id: MeasurementId,
}

/// A message on the main CAN bus.
#[derive(Clone, Copy, PartialEq, Eq, Structural, Debug)]
pub enum CanMessage {
    Heartbeat(Heartbeat),
    Emergency(Board, Reason),
    MeasurementReading(MeasurementReading),
    // Electronics
    StartPrechargeCommand,
    StartDischargeCommand,
    PrechargeStarted,
    DischargeStarted,
    PrechargeComplete,
    DischargeComplete,
    VoltageStatus { voltage: u16 },
    PrechargeVoltageOK,
    DischargeVoltageOK,
    HvalRedStatus(bool),
    HvalGreenStatus(bool),
    // Relays
    ShutdownCircuitryRelayOpen,
    ShutdownCircuitryRelayClosed,
    BatteryPrechargeRelayOpen,
    BatteryPrechargeRelayClosed,
    MotorControllerRelayOpen,
    MotorControllerRelayClosed,
    DischargeRelayOpen,
    DischargeRelayClosed,
    // Motor controller
    MotorControllerSetOperationalCommand,
    MotorControllerSetupCommand,
    OpenPrechargeRelaysCommand,
    MotorControllerSetupComplete,
    MotorControllerOperational,
    // Navigation
    EndOfTrackBrake,
    // Dynamics
    UnclampBrakesCommand,
    ClampBrakesCommand,
    RetractLateralSuspensionCommand,
    ExtendLateralSuspensionCommand,
    BrakesClamped { from: Board },
    BrakesUnclamped { from: Board },
    LateralSuspensionRetracted { from: Board },
    LateralSuspensionExtended { from: Board },
    DynamicsStatus { from: Board, actuator_pressure_bar: u32 },
    // Propulsion
    StartPropulsionAccelerationCommand,
    StartPropulsionBrakingCommand,
    PropulsionAccelerationStarted,
    PropulsionBrakingStarted,
    PropulsionStatus { current_ma: u16, velocity_kmh: u16, temperature_c: u16, voltage_cv: u16 },
    PropulsionForce { force_n: u32 },
}

/// An event on a board's event bus.
#[derive(Clone, Copy, PartialEq, Eq, Structural, Debug)]
pub enum Event {
    // Operator commands
    EmergencyStopOperatorCommand,
    IdleOperatorCommand,
    PrechargeOperatorCommand,
    AccelerateOperatorCommand,
    BrakeOperatorCommand,
    StartRunOperatorCommand,
    ReadyForPropulsionOperatorCommand,
    // Emergency
    Emergency { from: Board, reason: Reason },
    Heartbeat { from: Board, to: Board },
    /// The state machine entered the state with this number.
    StateChanged { state: u8 },
    ControlStatusChanged {
        can_setup_motor: bool,
        can_precharge: bool,
        can_ready_for_propulsion: bool,
        can_accelerate: bool,
    },
    // Outbound commands from the state machine
    StartPrechargeCommand,
    StartDischargeCommand,
    EndOfTrackBrakeCommand,
    UnclampBrakesCommand,
    ClampBrakesCommand,
    RetractLateralSuspensionCommand,
    ExtendLateralSuspensionCommand,
    StartPropulsionAccelerationCommand,
    StartPropulsionBrakingCommand,
    MotorControllerSetOperationalCommand,
    MotorControllerSetupCommand,
    OpenPrechargeRelaysCommand,
    // Status and completion events from the boards
    PrechargeStarted,
    DischargeStarted,
    PrechargeComplete,
    DischargeComplete,
    VoltageStatus { voltage: u16 },
    PrechargeVoltageOK,
    DischargeVoltageOK,
    ShutdownCircuitryRelayOpen,
    ShutdownCircuitryRelayClosed,
    BatteryPrechargeRelayOpen,
    BatteryPrechargeRelayClosed,
    MotorControllerRelayOpen,
    MotorControllerRelayClosed,
    MotorControllerSetupComplete,
    MotorControllerOperational,
    DischargeRelayOpen,
    DischargeRelayClosed,
    BrakesClamped { from: Board },
    BrakesUnclamped { from: Board },
    LateralSuspensionRetracted { from: Board },
    LateralSuspensionExtended { from: Board },
    DynamicsStatus { from: Board, actuator_pressure_bar: u32 },
    PropulsionAccelerationStarted,
    PropulsionBrakingStarted,
    PropulsionStatus { current_ma: u16, velocity_kmh: u16, temperature_c: u16, voltage_cv: u16 },
    PropulsionForce { force_n: u32 },
}

} // verus!
