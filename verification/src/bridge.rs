//! The bridges between a board's event bus and the main CAN bus, and from
//! the operator's MQTT controls to the event bus.
use crate::messages::{Board, CanMessage, Event, Heartbeat, MeasurementReading, Reason};
use vstd::prelude::*;
use vstd::string::{StringExecFns, StringSliceAdditionalSpecFns};

verus! {

/// The CAN message that an event on the bus is forwarded as, if any: the
/// emergencies and the state machine's outbound commands. Operator
/// commands, heartbeats, state reports and the boards' status events stay
/// on the bus.
pub open spec fn can_message_of_event(e: Event) -> Option<CanMessage> {
    match e {
        Event::Emergency { from, reason } => Some(CanMessage::Emergency(from, reason)),
        Event::StartPrechargeCommand => Some(CanMessage::StartPrechargeCommand),
        Event::StartDischargeCommand => Some(CanMessage::StartDischargeCommand),
        Event::EndOfTrackBrakeCommand => Some(CanMessage::EndOfTrackBrake),
        Event::UnclampBrakesCommand => Some(CanMessage::UnclampBrakesCommand),
        Event::ClampBrakesCommand => Some(CanMessage::ClampBrakesCommand),
        Event::RetractLateralSuspensionCommand => Some(CanMessage::RetractLateralSuspensionCommand),
        Event::ExtendLateralSuspensionCommand => Some(CanMessage::ExtendLateralSuspensionCommand),
        Event::StartPropulsionAccelerationCommand => Some(
            CanMessage::StartPropulsionAccelerationCommand,
        ),
        Event::StartPropulsionBrakingCommand => Some(CanMessage::StartPropulsionBrakingCommand),
        Event::MotorControllerSetOperationalCommand => Some(
            CanMessage::MotorControllerSetOperationalCommand,
        ),
        Event::MotorControllerSetupCommand => Some(CanMessage::MotorControllerSetupCommand),
        Event::OpenPrechargeRelaysCommand => Some(CanMessage::OpenPrechargeRelaysCommand),
        _ => None,
    }
}

/// The CAN message that an event on the bus is forwarded as, if any.
pub fn can_message_for_event(event: &Event) -> (r: Option<CanMessage>)
    ensures
        r == can_message_of_event(*event),
{
    match event {
        Event::Emergency { from, reason } => Some(CanMessage::Emergency(*from, *reason)),
        Event::StartPrechargeCommand => Some(CanMessage::StartPrechargeCommand),
        Event::StartDischargeCommand => Some(CanMessage::StartDischargeCommand),
        Event::EndOfTrackBrakeCommand => Some(CanMessage::EndOfTrackBrake),
        Event::UnclampBrakesCommand => Some(CanMessage::UnclampBrakesCommand),
        Event::ClampBrakesCommand => Some(CanMessage::ClampBrakesCommand),
        Event::RetractLateralSuspensionCommand => Some(CanMessage::RetractLateralSuspensionCommand),
        Event::ExtendLateralSuspensionCommand => Some(CanMessage::ExtendLateralSuspensionCommand),
        Event::StartPropulsionAccelerationCommand => Some(
            CanMessage::StartPropulsionAccelerationCommand,
        ),
        Event::StartPropulsionBrakingCommand => Some(CanMessage::StartPropulsionBrakingCommand),
        Event::MotorControllerSetOperationalCommand => Some(
            CanMessage::MotorControllerSetOperationalCommand,
        ),
        Event::MotorControllerSetupCommand => Some(CanMessage::MotorControllerSetupCommand),
        Event::OpenPrechargeRelaysCommand => Some(CanMessage::OpenPrechargeRelaysCommand),
        _ => None,
    }
}

/// What the event bridge publishes on MQTT, besides its log of every event.
#[derive(Clone, PartialEq, Eq, Debug)]
pub enum StatusPublication {
    /// The state machine's state, retained, on the state topic.
    State(u8),
    /// The control flags as JSON, retained, on the control status topic.
    ControlStatus(String),
}

/// The text of a flag in JSON.
pub open spec fn json_bool(b: bool) -> Seq<char> {
    if b {
        "true"@
    } else {
        "false"@
    }
}

/// The JSON object of the control flags, in the order the base station
/// reads them.
pub open spec fn control_status_json(a: bool, b: bool, c: bool, d: bool) -> Seq<char> {
    "{\"canSetupMotor\":"@ + json_bool(a) + ",\"canPrecharge\":"@ + json_bool(b)
        + ",\"canReadyForPropulsion\":"@ + json_bool(c) + ",\"canAccelerate\":"@ + json_bool(d)
        + "}"@
}

fn json_bool_text(b: bool) -> (s: &'static str)
    ensures
        s@ == json_bool(b),
{
    if b {
        "true"
    } else {
        "false"
    }
}

/// The JSON payload that reports which operator controls are enabled.
pub fn control_status_payload(
    can_setup_motor: bool,
    can_precharge: bool,
    can_ready_for_propulsion: bool,
    can_accelerate: bool,
) -> (s: String)
    ensures
        s@ == control_status_json(
            can_setup_motor,
            can_precharge,
            can_ready_for_propulsion,
            can_accelerate,
        ),
{
    let mut s = String::from_str("{\"canSetupMotor\":");
    s.append(json_bool_text(can_setup_motor));
    s.append(",\"canPrecharge\":");
    s.append(json_bool_text(can_precharge));
    s.append(",\"canReadyForPropulsion\":");
    s.append(json_bool_text(can_ready_for_propulsion));
    s.append(",\"canAccelerate\":");
    s.append(json_bool_text(can_accelerate));
    s.append("}");
    s
}

/// What the event bridge publishes on MQTT for an event before it forwards
/// it, besides its log of the event: state changes and control status
/// changes.
pub fn status_publication_for_event(event: &Event) -> (r: Option<StatusPublication>)
    ensures
        *event matches Event::StateChanged { state } ==> r == Some(StatusPublication::State(state)),
        *event matches Event::ControlStatusChanged {
            can_setup_motor,
            can_precharge,
            can_ready_for_propulsion,
            can_accelerate,
        } ==> (r matches Some(StatusPublication::ControlStatus(s)) && s@ == control_status_json(
            can_setup_motor,
            can_precharge,
            can_ready_for_propulsion,
            can_accelerate,
        )),
        !(event is StateChanged) && !(event is ControlStatusChanged) ==> r is None,
{
    match event {
        Event::StateChanged { state } => Some(StatusPublication::State(*state)),
        Event::ControlStatusChanged {
            can_setup_motor,
            can_precharge,
            can_ready_for_propulsion,
            can_accelerate,
        } => Some(
            StatusPublication::ControlStatus(
                control_status_payload(
                    *can_setup_motor,
                    *can_precharge,
                    *can_ready_for_propulsion,
                    *can_accelerate,
                ),
            ),
        ),
        _ => None,
    }
}

/// How the event bridge's attempt to queue an event's CAN message ended.
#[derive(Clone, Copy, PartialEq, Eq, Structural, Debug)]
pub enum CanForwardOutcome {
    /// The event has no CAN message.
    NotForwarded,
    /// The CAN queue took the message within the timeout.
    Queued,
    /// The CAN queue stayed full for the whole timeout; the message is dropped.
    TimedOut,
}

/// How the bridge's forwarding ends for an event whose CAN message, if it
/// has one, was queued in time or not.
pub open spec fn forward_outcome_of(e: Event, queued_in_time: bool) -> CanForwardOutcome {
    if can_message_of_event(e) is None {
        CanForwardOutcome::NotForwarded
    } else if queued_in_time {
        CanForwardOutcome::Queued
    } else {
        CanForwardOutcome::TimedOut
    }
}

/// How the bridge's forwarding ends for an event; `queued_in_time` tells
/// whether the CAN queue took its message within the timeout, and is not
/// read for an event that has no CAN message.
pub fn forward_outcome(event: &Event, queued_in_time: bool) -> (r: CanForwardOutcome)
    ensures
        r == forward_outcome_of(*event, queued_in_time),
{
    if can_message_for_event(event).is_none() {
        CanForwardOutcome::NotForwarded
    } else if queued_in_time {
        CanForwardOutcome::Queued
    } else {
        CanForwardOutcome::TimedOut
    }
}

/// Whether the bridge publishes its log of an event on MQTT once the CAN
/// forwarding is over: after every event, save one whose CAN message was
/// dropped because the CAN queue stayed full.
pub fn publishes_event_log(outcome: CanForwardOutcome) -> (r: bool)
    ensures
        r == !(outcome is TimedOut),
{
    match outcome {
        CanForwardOutcome::TimedOut => false,
        _ => true,
    }
}

/// Every event that is not forwarded on CAN, and every one whose message
/// was queued in time, is logged; only a dropped message goes unlogged.
pub proof fn lemma_event_log_owed(e: Event, queued_in_time: bool)
    ensures
        !(forward_outcome_of(e, queued_in_time) is TimedOut) <==> (can_message_of_event(e) is None
            || queued_in_time),
{
}

/// The motor controller commands, whose forwarding the event bridge logs.
pub fn is_logged_motor_command(message: &CanMessage) -> (r: bool)
    ensures
        r == (message is MotorControllerSetupCommand
            || message is MotorControllerSetOperationalCommand),
{
    match message {
        CanMessage::MotorControllerSetupCommand | CanMessage::MotorControllerSetOperationalCommand => true,
        _ => false,
    }
}

/// The messages whose transmission the CAN sender logs: the motor
/// controller, propulsion and brake commands and their replies.
pub fn is_logged_on_transmit(message: &CanMessage) -> (r: bool)
    ensures
        r == (message is MotorControllerSetupCommand
            || message is MotorControllerSetOperationalCommand
            || message is MotorControllerSetupComplete || message is MotorControllerOperational
            || message is StartPropulsionAccelerationCommand
            || message is StartPropulsionBrakingCommand || message is PropulsionAccelerationStarted
            || message is PropulsionBrakingStarted || message is ClampBrakesCommand
            || message is UnclampBrakesCommand),
{
    match message {
        CanMessage::MotorControllerSetupCommand
        | CanMessage::MotorControllerSetOperationalCommand
        | CanMessage::MotorControllerSetupComplete
        | CanMessage::MotorControllerOperational
        | CanMessage::StartPropulsionAccelerationCommand
        | CanMessage::StartPropulsionBrakingCommand
        | CanMessage::PropulsionAccelerationStarted
        | CanMessage::PropulsionBrakingStarted
        | CanMessage::ClampBrakesCommand
        | CanMessage::UnclampBrakesCommand => true,
        _ => false,
    }
}

/// What the CAN receiver does with a message from the bus.
#[derive(Clone, Copy, PartialEq, Eq, Debug)]
pub enum CanIngress {
    /// Queue the heartbeat for the heartbeat monitor, dropping it if full.
    Heartbeat(Heartbeat),
    /// Raise the board's emergency signal.
    Emergency(Board, Reason),
    /// Queue the reading for MQTT, dropping it if full.
    Measurement(MeasurementReading),
    /// Publish the event on the board's event bus.
    Publish(Event),
    /// Nothing.
    Ignore,
}

/// What the CAN receiver does with each message: heartbeats, emergencies
/// and readings go their own ways, every other message is published on the
/// event bus as its event, except the HVAL light statuses, which the
/// receiver leaves alone.
pub open spec fn ingress_of(m: CanMessage) -> CanIngress {
    match m {
        CanMessage::Heartbeat(h) => CanIngress::Heartbeat(h),
        CanMessage::Emergency(board, reason) => CanIngress::Emergency(board, reason),
        CanMessage::MeasurementReading(r) => CanIngress::Measurement(r),
        CanMessage::StartPrechargeCommand => CanIngress::Publish(Event::StartPrechargeCommand),
        CanMessage::StartDischargeCommand => CanIngress::Publish(Event::StartDischargeCommand),
        CanMessage::PrechargeStarted => CanIngress::Publish(Event::PrechargeStarted),
        CanMessage::DischargeStarted => CanIngress::Publish(Event::DischargeStarted),
        CanMessage::PrechargeComplete => CanIngress::Publish(Event::PrechargeComplete),
        CanMessage::DischargeComplete => CanIngress::Publish(Event::DischargeComplete),
        CanMessage::VoltageStatus { voltage } => CanIngress::Publish(
            Event::VoltageStatus { voltage },
        ),
        CanMessage::PrechargeVoltageOK => CanIngress::Publish(Event::PrechargeVoltageOK),
        CanMessage::DischargeVoltageOK => CanIngress::Publish(Event::DischargeVoltageOK),
        CanMessage::HvalRedStatus(_) => CanIngress::Ignore,
        CanMessage::HvalGreenStatus(_) => CanIngress::Ignore,
        CanMessage::ShutdownCircuitryRelayOpen => CanIngress::Publish(
            Event::ShutdownCircuitryRelayOpen,
        ),
        CanMessage::ShutdownCircuitryRelayClosed => CanIngress::Publish(
            Event::ShutdownCircuitryRelayClosed,
        ),
        CanMessage::BatteryPrechargeRelayOpen => CanIngress::Publish(
            Event::BatteryPrechargeRelayOpen,
        ),
        CanMessage::BatteryPrechargeRelayClosed => CanIngress::Publish(
            Event::BatteryPrechargeRelayClosed,
        ),
        CanMessage::MotorControllerRelayOpen => CanIngress::Publish(Event::MotorControllerRelayOpen),
        CanMessage::MotorControllerRelayClosed => CanIngress::Publish(
            Event::MotorControllerRelayClosed,
        ),
        CanMessage::DischargeRelayOpen => CanIngress::Publish(Event::DischargeRelayOpen),
        CanMessage::DischargeRelayClosed => CanIngress::Publish(Event::DischargeRelayClosed),
        CanMessage::MotorControllerSetOperationalCommand => CanIngress::Publish(
            Event::MotorControllerSetOperationalCommand,
        ),
        CanMessage::MotorControllerSetupCommand => CanIngress::Publish(
            Event::MotorControllerSetupCommand,
        ),
        CanMessage::OpenPrechargeRelaysCommand => CanIngress::Publish(
            Event::OpenPrechargeRelaysCommand,
        ),
        CanMessage::MotorControllerSetupComplete => CanIngress::Publish(
            Event::MotorControllerSetupComplete,
        ),
        CanMessage::MotorControllerOperational => CanIngress::Publish(
            Event::MotorControllerOperational,
        ),
        CanMessage::EndOfTrackBrake => CanIngress::Publish(Event::EndOfTrackBrakeCommand),
        CanMessage::UnclampBrakesCommand => CanIngress::Publish(Event::UnclampBrakesCommand),
        CanMessage::ClampBrakesCommand => CanIngress::Publish(Event::ClampBrakesCommand),
        CanMessage::RetractLateralSuspensionCommand => CanIngress::Publish(
            Event::RetractLateralSuspensionCommand,
        ),
        CanMessage::ExtendLateralSuspensionCommand => CanIngress::Publish(
            Event::ExtendLateralSuspensionCommand,
        ),
        CanMessage::BrakesClamped { from } => CanIngress::Publish(Event::BrakesClamped { from }),
        CanMessage::BrakesUnclamped { from } => CanIngress::Publish(Event::BrakesUnclamped { from }),
        CanMessage::LateralSuspensionRetracted { from } => CanIngress::Publish(
            Event::LateralSuspensionRetracted { from },
        ),
        CanMessage::LateralSuspensionExtended { from } => CanIngress::Publish(
            Event::LateralSuspensionExtended { from },
        ),
        CanMessage::DynamicsStatus { from, actuator_pressure_bar } => CanIngress::Publish(
            Event::DynamicsStatus { from, actuator_pressure_bar },
        ),
        CanMessage::StartPropulsionAccelerationCommand => CanIngress::Publish(
            Event::StartPropulsionAccelerationCommand,
        ),
        CanMessage::StartPropulsionBrakingCommand => CanIngress::Publish(
            Event::StartPropulsionBrakingCommand,
        ),
        CanMessage::PropulsionAccelerationStarted => CanIngress::Publish(
            Event::PropulsionAccelerationStarted,
        ),
        CanMessage::PropulsionBrakingStarted => CanIngress::Publish(
            Event::PropulsionBrakingStarted,
        ),
        CanMessage::PropulsionStatus { current_ma, velocity_kmh, temperature_c, voltage_cv } =>
            CanIngress::Publish(
            Event::PropulsionStatus { current_ma, velocity_kmh, temperature_c, voltage_cv },
        ),
        CanMessage::PropulsionForce { force_n } => CanIngress::Publish(
            Event::PropulsionForce { force_n },
        ),
    }
}


/// What the CAN receiver does with a message from the bus.
pub fn can_ingress(message: &CanMessage) -> (r: CanIngress)
    ensures
        r == ingress_of(*message),
{
    match *message {
        CanMessage::Heartbeat(h) => CanIngress::Heartbeat(h),
        CanMessage::Emergency(board, reason) => CanIngress::Emergency(board, reason),
        CanMessage::MeasurementReading(r) => CanIngress::Measurement(r),
        CanMessage::StartPrechargeCommand => CanIngress::Publish(Event::StartPrechargeCommand),
        CanMessage::StartDischargeCommand => CanIngress::Publish(Event::StartDischargeCommand),
        CanMessage::PrechargeStarted => CanIngress::Publish(Event::PrechargeStarted),
        CanMessage::DischargeStarted => CanIngress::Publish(Event::DischargeStarted),
        CanMessage::PrechargeComplete => CanIngress::Publish(Event::PrechargeComplete),
        CanMessage::DischargeComplete => CanIngress::Publish(Event::DischargeComplete),
        CanMessage::VoltageStatus { voltage } => CanIngress::Publish(
            Event::VoltageStatus { voltage },
        ),
        CanMessage::PrechargeVoltageOK => CanIngress::Publish(Event::PrechargeVoltageOK),
        CanMessage::DischargeVoltageOK => CanIngress::Publish(Event::DischargeVoltageOK),
        CanMessage::HvalRedStatus(_) => CanIngress::Ignore,
        CanMessage::HvalGreenStatus(_) => CanIngress::Ignore,
        CanMessage::ShutdownCircuitryRelayOpen => CanIngress::Publish(
            Event::ShutdownCircuitryRelayOpen,
        ),
        CanMessage::ShutdownCircuitryRelayClosed => CanIngress::Publish(
            Event::ShutdownCircuitryRelayClosed,
        ),
        CanMessage::BatteryPrechargeRelayOpen => CanIngress::Publish(
            Event::BatteryPrechargeRelayOpen,
        ),
        CanMessage::BatteryPrechargeRelayClosed => CanIngress::Publish(
            Event::BatteryPrechargeRelayClosed,
        ),
        CanMessage::MotorControllerRelayOpen => CanIngress::Publish(Event::MotorControllerRelayOpen),
        CanMessage::MotorControllerRelayClosed => CanIngress::Publish(
            Event::MotorControllerRelayClosed,
        ),
        CanMessage::DischargeRelayOpen => CanIngress::Publish(Event::DischargeRelayOpen),
        CanMessage::DischargeRelayClosed => CanIngress::Publish(Event::DischargeRelayClosed),
        CanMessage::MotorControllerSetOperationalCommand => CanIngress::Publish(
            Event::MotorControllerSetOperationalCommand,
        ),
        CanMessage::MotorControllerSetupCommand => CanIngress::Publish(
            Event::MotorControllerSetupCommand,
        ),
        CanMessage::OpenPrechargeRelaysCommand => CanIngress::Publish(
            Event::OpenPrechargeRelaysCommand,
        ),
        CanMessage::MotorControllerSetupComplete => CanIngress::Publish(
            Event::MotorControllerSetupComplete,
        ),
        CanMessage::MotorControllerOperational => CanIngress::Publish(
            Event::MotorControllerOperational,
        ),
        CanMessage::EndOfTrackBrake => CanIngress::Publish(Event::EndOfTrackBrakeCommand),
        CanMessage::UnclampBrakesCommand => CanIngress::Publish(Event::UnclampBrakesCommand),
        CanMessage::ClampBrakesCommand => CanIngress::Publish(Event::ClampBrakesCommand),
        CanMessage::RetractLateralSuspensionCommand => CanIngress::Publish(
            Event::RetractLateralSuspensionCommand,
        ),
        CanMessage::ExtendLateralSuspensionCommand => CanIngress::Publish(
            Event::ExtendLateralSuspensionCommand,
        ),
        CanMessage::BrakesClamped { from } => CanIngress::Publish(Event::BrakesClamped { from }),
        CanMessage::BrakesUnclamped { from } => CanIngress::Publish(Event::BrakesUnclamped { from }),
        CanMessage::LateralSuspensionRetracted { from } => CanIngress::Publish(
            Event::LateralSuspensionRetracted { from },
        ),
        CanMessage::LateralSuspensionExtended { from } => CanIngress::Publish(
            Event::LateralSuspensionExtended { from },
        ),
        CanMessage::DynamicsStatus { from, actuator_pressure_bar } => CanIngress::Publish(
            Event::DynamicsStatus { from, actuator_pressure_bar },
        ),
        CanMessage::StartPropulsionAccelerationCommand => CanIngress::Publish(
            Event::StartPropulsionAccelerationCommand,
        ),
        CanMessage::StartPropulsionBrakingCommand => CanIngress::Publish(
            Event::StartPropulsionBrakingCommand,
        ),
        CanMessage::PropulsionAccelerationStarted => CanIngress::Publish(
            Event::PropulsionAccelerationStarted,
        ),
        CanMessage::PropulsionBrakingStarted => CanIngress::Publish(
            Event::PropulsionBrakingStarted,
        ),
        CanMessage::PropulsionStatus { current_ma, velocity_kmh, temperature_c, voltage_cv } =>
            CanIngress::Publish(
            Event::PropulsionStatus { current_ma, velocity_kmh, temperature_c, voltage_cv },
        ),
        CanMessage::PropulsionForce { force_n } => CanIngress::Publish(
            Event::PropulsionForce { force_n },
        ),
    }
}

/// The identifier of the IMD's frames, which carry no message of the pod.
pub const DEFAULT_IMD_ID: u32 = 0x18ff01f4;

/// Whether a frame is one of the IMD's, which go to the IMD reader.
pub fn is_imd_frame(extended: bool, raw_id: u32) -> (r: bool)
    ensures
        r == (extended && raw_id == DEFAULT_IMD_ID),
{
    extended && raw_id == DEFAULT_IMD_ID
}

/// The kind of event a CAN identifier carries.
#[derive(Clone, Copy, PartialEq, Eq, Structural, Debug)]
pub enum EventId {
    StartPrechargeCommand,
    StartDischargeCommand,
    ClampBrakesCommand,
    UnclampBrakesCommand,
    StartPropulsionAccelerationCommand,
    StartPropulsionBrakingCommand,
    RetractLateralSuspensionCommand,
    ExtendLateralSuspensionCommand,
    EndOfTrackBrake,
    MotorControllerSetOperationalCommand,
    MotorControllerSetupCommand,
    OpenPrechargeRelaysCommand,
    /// A status or completion event.
    Status,
}

/// What a CAN identifier says a frame carries.
#[derive(Clone, Copy, PartialEq, Eq, Structural, Debug)]
pub enum MessageIdentifier {
    Event(EventId),
    /// Heartbeats, emergencies, readings.
    Other,
}

/// A CAN identifier: the sending board and what the frame carries.
#[derive(Clone, Copy, PartialEq, Eq, Structural, Debug)]
pub struct CanId {
    pub board: Board,
    pub message_identifier: MessageIdentifier,
}

/// The frame carries one of the commands that a board sends to the others.
pub open spec fn is_command_id(id: MessageIdentifier) -> bool {
    id matches MessageIdentifier::Event(e) && e != EventId::Status
}

/// Whether a frame carries a command, so that when it comes from this very
/// board it is the echo of the board's own transmission. Status and
/// completion frames are not commands: they are accepted even with this
/// board's identity.
pub fn is_own_command_loopback(source: &CanId) -> (r: bool)
    ensures
        r == is_command_id(source.message_identifier),
{
    match source.message_identifier {
        MessageIdentifier::Event(EventId::Status) => false,
        MessageIdentifier::Event(_) => true,
        MessageIdentifier::Other => false,
    }
}

/// Whether the receiver drops a frame as the echo of a command that this
/// board sent.
pub fn is_ignored_loopback(source: &CanId, this_board: Board) -> (r: bool)
    ensures
        r == (source.board == this_board && is_command_id(source.message_identifier)),
{
    source.board == this_board && is_own_command_loopback(source)
}

/// Forwarding a command over CAN and receiving it on another board publishes
/// the same event there: the bridges agree on every command.
pub proof fn lemma_forwarded_commands_arrive(e: Event)
    requires
        can_message_of_event(e) is Some,
        !(e is Emergency),
    ensures
        ingress_of(can_message_of_event(e)->0) == CanIngress::Publish(e),
{
}

/// A forwarded emergency raises the emergency of the receiving board, with
/// the same board and reason.
pub proof fn lemma_forwarded_emergency_arrives(from: Board, reason: Reason)
    ensures
        ingress_of(can_message_of_event(Event::Emergency { from, reason }).unwrap())
            == CanIngress::Emergency(from, reason),
{
}

/// Every report a board sends on the main bus is published on the event
/// bus as the event of the same name, with the same fields, whatever the
/// board and the values: brake and suspension reports, relay reports,
/// precharge and discharge reports, voltage, dynamics and propulsion status.
pub proof fn lemma_reports_published_by_name(
    b: Board,
    voltage: u16,
    pressure: u32,
    current_ma: u16,
    velocity_kmh: u16,
    temperature_c: u16,
    voltage_cv: u16,
    force_n: u32,
)
    ensures
        ingress_of(CanMessage::BrakesClamped { from: b }) == CanIngress::Publish(
            Event::BrakesClamped { from: b },
        ),
        ingress_of(CanMessage::BrakesUnclamped { from: b }) == CanIngress::Publish(
            Event::BrakesUnclamped { from: b },
        ),
        ingress_of(CanMessage::LateralSuspensionRetracted { from: b }) == CanIngress::Publish(
            Event::LateralSuspensionRetracted { from: b },
        ),
        ingress_of(CanMessage::LateralSuspensionExtended { from: b }) == CanIngress::Publish(
            Event::LateralSuspensionExtended { from: b },
        ),
        ingress_of(CanMessage::DynamicsStatus { from: b, actuator_pressure_bar: pressure })
            == CanIngress::Publish(Event::DynamicsStatus { from: b, actuator_pressure_bar: pressure }),
        ingress_of(CanMessage::VoltageStatus { voltage }) == CanIngress::Publish(
            Event::VoltageStatus { voltage },
        ),
        ingress_of(
            CanMessage::PropulsionStatus { current_ma, velocity_kmh, temperature_c, voltage_cv },
        ) == CanIngress::Publish(
            Event::PropulsionStatus { current_ma, velocity_kmh, temperature_c, voltage_cv },
        ),
        ingress_of(CanMessage::PropulsionForce { force_n }) == CanIngress::Publish(
            Event::PropulsionForce { force_n },
        ),
        ingress_of(CanMessage::PrechargeStarted) == CanIngress::Publish(Event::PrechargeStarted),
        ingress_of(CanMessage::DischargeStarted) == CanIngress::Publish(Event::DischargeStarted),
        ingress_of(CanMessage::PrechargeComplete) == CanIngress::Publish(Event::PrechargeComplete),
        ingress_of(CanMessage::DischargeComplete) == CanIngress::Publish(Event::DischargeComplete),
        ingress_of(CanMessage::PrechargeVoltageOK) == CanIngress::Publish(Event::PrechargeVoltageOK),
        ingress_of(CanMessage::DischargeVoltageOK) == CanIngress::Publish(Event::DischargeVoltageOK),
        ingress_of(CanMessage::ShutdownCircuitryRelayOpen) == CanIngress::Publish(
            Event::ShutdownCircuitryRelayOpen,
        ),
        ingress_of(CanMessage::ShutdownCircuitryRelayClosed) == CanIngress::Publish(
            Event::ShutdownCircuitryRelayClosed,
        ),
        ingress_of(CanMessage::BatteryPrechargeRelayOpen) == CanIngress::Publish(
            Event::BatteryPrechargeRelayOpen,
        ),
        ingress_of(CanMessage::BatteryPrechargeRelayClosed) == CanIngress::Publish(
            Event::BatteryPrechargeRelayClosed,
        ),
        ingress_of(CanMessage::MotorControllerRelayOpen) == CanIngress::Publish(
            Event::MotorControllerRelayOpen,
        ),
        ingress_of(CanMessage::MotorControllerRelayClosed) == CanIngress::Publish(
            Event::MotorControllerRelayClosed,
        ),
        ingress_of(CanMessage::DischargeRelayOpen) == CanIngress::Publish(Event::DischargeRelayOpen),
        ingress_of(CanMessage::DischargeRelayClosed) == CanIngress::Publish(
            Event::DischargeRelayClosed,
        ),
        ingress_of(CanMessage::MotorControllerSetupComplete) == CanIngress::Publish(
            Event::MotorControllerSetupComplete,
        ),
        ingress_of(CanMessage::MotorControllerOperational) == CanIngress::Publish(
            Event::MotorControllerOperational,
        ),
        ingress_of(CanMessage::PropulsionAccelerationStarted) == CanIngress::Publish(
            Event::PropulsionAccelerationStarted,
        ),
        ingress_of(CanMessage::PropulsionBrakingStarted) == CanIngress::Publish(
            Event::PropulsionBrakingStarted,
        ),
{
}

/// Every command on the main bus is published as the command event of the
/// same name, and the event bridge forwards that event as the same message:
/// the end-of-track brake is the one command whose event carries the word
/// "Command" and whose message does not.
pub proof fn lemma_commands_published_by_name()
    ensures
        ingress_of(CanMessage::StartPrechargeCommand) == CanIngress::Publish(Event::StartPrechargeCommand),
        can_message_of_event(Event::StartPrechargeCommand) == Some(CanMessage::StartPrechargeCommand),
        ingress_of(CanMessage::StartDischargeCommand) == CanIngress::Publish(Event::StartDischargeCommand),
        can_message_of_event(Event::StartDischargeCommand) == Some(CanMessage::StartDischargeCommand),
        ingress_of(CanMessage::EndOfTrackBrake) == CanIngress::Publish(Event::EndOfTrackBrakeCommand),
        can_message_of_event(Event::EndOfTrackBrakeCommand) == Some(CanMessage::EndOfTrackBrake),
        ingress_of(CanMessage::UnclampBrakesCommand) == CanIngress::Publish(Event::UnclampBrakesCommand),
        can_message_of_event(Event::UnclampBrakesCommand) == Some(CanMessage::UnclampBrakesCommand),
        ingress_of(CanMessage::ClampBrakesCommand) == CanIngress::Publish(Event::ClampBrakesCommand),
        can_message_of_event(Event::ClampBrakesCommand) == Some(CanMessage::ClampBrakesCommand),
        ingress_of(CanMessage::RetractLateralSuspensionCommand) == CanIngress::Publish(Event::RetractLateralSuspensionCommand),
        can_message_of_event(Event::RetractLateralSuspensionCommand) == Some(CanMessage::RetractLateralSuspensionCommand),
        ingress_of(CanMessage::ExtendLateralSuspensionCommand) == CanIngress::Publish(Event::ExtendLateralSuspensionCommand),
        can_message_of_event(Event::ExtendLateralSuspensionCommand) == Some(CanMessage::ExtendLateralSuspensionCommand),
        ingress_of(CanMessage::StartPropulsionAccelerationCommand) == CanIngress::Publish(Event::StartPropulsionAccelerationCommand),
        can_message_of_event(Event::StartPropulsionAccelerationCommand) == Some(CanMessage::StartPropulsionAccelerationCommand),
        ingress_of(CanMessage::StartPropulsionBrakingCommand) == CanIngress::Publish(Event::StartPropulsionBrakingCommand),
        can_message_of_event(Event::StartPropulsionBrakingCommand) == Some(CanMessage::StartPropulsionBrakingCommand),
        ingress_of(CanMessage::MotorControllerSetOperationalCommand) == CanIngress::Publish(Event::MotorControllerSetOperationalCommand),
        can_message_of_event(Event::MotorControllerSetOperationalCommand) == Some(CanMessage::MotorControllerSetOperationalCommand),
        ingress_of(CanMessage::MotorControllerSetupCommand) == CanIngress::Publish(Event::MotorControllerSetupCommand),
        can_message_of_event(Event::MotorControllerSetupCommand) == Some(CanMessage::MotorControllerSetupCommand),
        ingress_of(CanMessage::OpenPrechargeRelaysCommand) == CanIngress::Publish(Event::OpenPrechargeRelaysCommand),
        can_message_of_event(Event::OpenPrechargeRelaysCommand) == Some(CanMessage::OpenPrechargeRelaysCommand),
{
}

/// Two different messages never publish the same event: the receiver loses
/// nothing of what a message says, so an event on the bus names the one
/// message it came from.
pub proof fn lemma_ingress_publish_injective(m1: CanMessage, m2: CanMessage)
    requires
        ingress_of(m1) is Publish,
        ingress_of(m1) == ingress_of(m2),
    ensures
        m1 == m2,
{
}

/// Only heartbeats, emergencies, readings and the HVAL lights are kept off
/// the event bus; every other message is published.
pub proof fn lemma_ingress_publishes_the_rest(m: CanMessage)
    ensures
        (ingress_of(m) is Publish) <==> !(m is Heartbeat || m is Emergency
            || m is MeasurementReading || m is HvalRedStatus || m is HvalGreenStatus),
        m is Heartbeat ==> ingress_of(m) == CanIngress::Heartbeat(m->Heartbeat_0),
        m is Emergency ==> ingress_of(m) == CanIngress::Emergency(m->Emergency_0, m->Emergency_1),
        m is MeasurementReading ==> ingress_of(m) == CanIngress::Measurement(
            m->MeasurementReading_0,
        ),
{
}

fn str_eq(a: &str, b: &str) -> (r: bool)
    ensures
        r == (a@ == b@),
{
    let x = a.as_bytes();
    let y = b.as_bytes();
    proof {
        vstd::utf8::encode_utf8_decode_utf8(a@);
        vstd::utf8::encode_utf8_decode_utf8(b@);
    }
    if x.len() != y.len() {
        return false;
    }
    let n = x.len();
    let mut i: usize = 0;
    while i < n
        invariant
            n == x@.len(),
            n == y@.len(),
            x@ == a.spec_bytes(),
            y@ == b.spec_bytes(),
            i <= n,
            forall|j: int| 0 <= j < i ==> x@[j] == y@[j],
        decreases n - i,
    {
        if x[i] != y[i] {
            return false;
        }
        i = i + 1;
    }
    assert(x@ =~= y@);
    true
}

/// The event of an operator's control on the MQTT controls topic.
pub open spec fn operator_event(payload: Seq<char>) -> Option<Event> {
    if payload == "setup_motor"@ {
        Some(Event::PrechargeOperatorCommand)
    } else if payload == "precharge"@ {
        Some(Event::StartRunOperatorCommand)
    } else if payload == "ready-for-propulsion"@ {
        Some(Event::ReadyForPropulsionOperatorCommand)
    } else if payload == "accelerate"@ {
        Some(Event::AccelerateOperatorCommand)
    } else if payload == "stop"@ {
        Some(Event::BrakeOperatorCommand)
    } else if payload == "emergency-stop"@ {
        Some(Event::EmergencyStopOperatorCommand)
    } else {
        None
    }
}

/// Each operator control raises its own operator command, never one that
/// another control raises, and never a command that the bridge forwards on
/// CAN: the operator speaks only to the state machine. The emergency stop
/// control raises the emergency stop command, and the stop control the
/// brake command.
pub proof fn lemma_operator_controls(p1: Seq<char>, p2: Seq<char>)
    ensures
        operator_event(p1) is Some && operator_event(p1) == operator_event(p2) ==> p1 == p2,
        operator_event(p1) matches Some(e) ==> can_message_of_event(e) is None && (e
            is EmergencyStopOperatorCommand || e is IdleOperatorCommand
            || e is PrechargeOperatorCommand || e is AccelerateOperatorCommand
            || e is BrakeOperatorCommand || e is StartRunOperatorCommand
            || e is ReadyForPropulsionOperatorCommand),
        operator_event("emergency-stop"@) == Some(Event::EmergencyStopOperatorCommand),
        operator_event("stop"@) == Some(Event::BrakeOperatorCommand),
{
    reveal_strlit("setup_motor");
    reveal_strlit("precharge");
    reveal_strlit("ready-for-propulsion");
    reveal_strlit("accelerate");
    reveal_strlit("stop");
    reveal_strlit("emergency-stop");
    assert("emergency-stop"@.len() != "setup_motor"@.len());
    assert("emergency-stop"@.len() != "precharge"@.len());
    assert("emergency-stop"@.len() != "ready-for-propulsion"@.len());
    assert("emergency-stop"@.len() != "accelerate"@.len());
    assert("emergency-stop"@.len() != "stop"@.len());
    assert("stop"@.len() != "setup_motor"@.len());
    assert("stop"@.len() != "precharge"@.len());
    assert("stop"@.len() != "ready-for-propulsion"@.len());
    assert("stop"@.len() != "accelerate"@.len());
}

/// The event of an operator's control on the MQTT controls topic, or `None`
/// for a payload that names no control.
pub fn operator_command(payload: &str) -> (r: Option<Event>)
    ensures
        r == operator_event(payload@),
{
    if str_eq(payload, "setup_motor") {
        Some(Event::PrechargeOperatorCommand)
    } else if str_eq(payload, "precharge") {
        Some(Event::StartRunOperatorCommand)
    } else if str_eq(payload, "ready-for-propulsion") {
        Some(Event::ReadyForPropulsionOperatorCommand)
    } else if str_eq(payload, "accelerate") {
        Some(Event::AccelerateOperatorCommand)
    } else if str_eq(payload, "stop") {
        Some(Event::BrakeOperatorCommand)
    } else if str_eq(payload, "emergency-stop") {
        Some(Event::EmergencyStopOperatorCommand)
    } else {
        None
    }
}

} // verus!
