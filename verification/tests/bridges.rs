use hyped_boards_stm32f767zi::bridge::{
    can_ingress, can_message_for_event, forward_outcome, publishes_event_log, CanForwardOutcome, control_status_payload, is_ignored_loopback,
    is_imd_frame, is_logged_motor_command, is_logged_on_transmit, is_own_command_loopback,
    operator_command, status_publication_for_event, CanId, CanIngress, EventId,
    MessageIdentifier, StatusPublication, DEFAULT_IMD_ID,
};
use hyped_boards_stm32f767zi::messages::{Board, CanMessage, Event, Heartbeat, Reason};

const COMMANDS: [Event; 12] = [
    Event::StartPrechargeCommand,
    Event::StartDischargeCommand,
    Event::EndOfTrackBrakeCommand,
    Event::UnclampBrakesCommand,
    Event::ClampBrakesCommand,
    Event::RetractLateralSuspensionCommand,
    Event::ExtendLateralSuspensionCommand,
    Event::StartPropulsionAccelerationCommand,
    Event::StartPropulsionBrakingCommand,
    Event::MotorControllerSetOperationalCommand,
    Event::MotorControllerSetupCommand,
    Event::OpenPrechargeRelaysCommand,
];

#[test]
fn commands_are_forwarded_and_arrive_as_the_same_event() {
    for e in COMMANDS {
        let m = can_message_for_event(&e).expect("commands go over CAN");
        assert_eq!(can_ingress(&m), CanIngress::Publish(e));
    }
    assert_eq!(can_message_for_event(&Event::EndOfTrackBrakeCommand), Some(CanMessage::EndOfTrackBrake));
}

#[test]
fn emergencies_are_forwarded_and_raise_the_emergency() {
    let e = Event::Emergency { from: Board::Navigation, reason: Reason::Pressure };
    let m = can_message_for_event(&e).unwrap();
    assert_eq!(m, CanMessage::Emergency(Board::Navigation, Reason::Pressure));
    assert_eq!(can_ingress(&m), CanIngress::Emergency(Board::Navigation, Reason::Pressure));
}

#[test]
fn local_events_stay_on_the_bus() {
    for e in [
        Event::EmergencyStopOperatorCommand,
        Event::IdleOperatorCommand,
        Event::Heartbeat { from: Board::Telemetry, to: Board::Navigation },
        Event::StateChanged { state: 3 },
        Event::PrechargeComplete,
        Event::BrakesClamped { from: Board::Pneumatics },
        Event::PropulsionForce { force_n: 12 },
    ] {
        assert_eq!(can_message_for_event(&e), None);
    }
}

#[test]
fn receiver_routes_special_messages() {
    let h = Heartbeat { from: Board::Navigation, to: Board::Telemetry };
    assert_eq!(can_ingress(&CanMessage::Heartbeat(h)), CanIngress::Heartbeat(h));
    assert_eq!(can_ingress(&CanMessage::HvalRedStatus(true)), CanIngress::Ignore);
    assert_eq!(
        can_ingress(&CanMessage::VoltageStatus { voltage: 4200 }),
        CanIngress::Publish(Event::VoltageStatus { voltage: 4200 })
    );
    assert!(is_imd_frame(true, DEFAULT_IMD_ID));
    assert!(!is_imd_frame(false, DEFAULT_IMD_ID));
    assert!(!is_imd_frame(true, DEFAULT_IMD_ID + 1));
}

#[test]
fn own_commands_are_dropped_but_not_statuses() {
    let cmd = CanId { board: Board::Telemetry, message_identifier: MessageIdentifier::Event(EventId::ClampBrakesCommand) };
    let status = CanId { board: Board::Telemetry, message_identifier: MessageIdentifier::Event(EventId::Status) };
    assert!(is_own_command_loopback(&cmd));
    assert!(!is_own_command_loopback(&status));
    assert!(is_ignored_loopback(&cmd, Board::Telemetry));
    assert!(!is_ignored_loopback(&cmd, Board::Navigation));
    assert!(!is_ignored_loopback(&status, Board::Telemetry));
}

#[test]
fn operator_controls_map_to_events() {
    assert_eq!(operator_command("setup_motor"), Some(Event::PrechargeOperatorCommand));
    assert_eq!(operator_command("precharge"), Some(Event::StartRunOperatorCommand));
    assert_eq!(operator_command("ready-for-propulsion"), Some(Event::ReadyForPropulsionOperatorCommand));
    assert_eq!(operator_command("accelerate"), Some(Event::AccelerateOperatorCommand));
    assert_eq!(operator_command("stop"), Some(Event::BrakeOperatorCommand));
    assert_eq!(operator_command("emergency-stop"), Some(Event::EmergencyStopOperatorCommand));
    assert_eq!(operator_command("Stop"), None);
    assert_eq!(operator_command(""), None);
}

#[test]
fn control_status_is_json() {
    assert_eq!(
        control_status_payload(true, false, false, true),
        "{\"canSetupMotor\":true,\"canPrecharge\":false,\"canReadyForPropulsion\":false,\"canAccelerate\":true}"
    );
    let e = Event::ControlStatusChanged { can_setup_motor: false, can_precharge: true, can_ready_for_propulsion: true, can_accelerate: false };
    assert_eq!(
        status_publication_for_event(&e),
        Some(StatusPublication::ControlStatus(
            "{\"canSetupMotor\":false,\"canPrecharge\":true,\"canReadyForPropulsion\":true,\"canAccelerate\":false}".to_string()
        ))
    );
    assert_eq!(status_publication_for_event(&Event::StateChanged { state: 4 }), Some(StatusPublication::State(4)));
    assert_eq!(status_publication_for_event(&Event::PrechargeStarted), None);
}

#[test]
fn logging_predicates() {
    assert!(is_logged_motor_command(&CanMessage::MotorControllerSetupCommand));
    assert!(!is_logged_motor_command(&CanMessage::ClampBrakesCommand));
    assert!(is_logged_on_transmit(&CanMessage::ClampBrakesCommand));
    assert!(is_logged_on_transmit(&CanMessage::PropulsionBrakingStarted));
    assert!(!is_logged_on_transmit(&CanMessage::PrechargeStarted));
}

#[test]
fn event_log_follows_unless_can_send_timed_out() {
    assert_eq!(forward_outcome(&Event::StateChanged { state: 3 }, false), CanForwardOutcome::NotForwarded);
    assert_eq!(forward_outcome(&Event::ClampBrakesCommand, true), CanForwardOutcome::Queued);
    assert_eq!(forward_outcome(&Event::ClampBrakesCommand, false), CanForwardOutcome::TimedOut);
    assert!(publishes_event_log(CanForwardOutcome::NotForwarded));
    assert!(publishes_event_log(CanForwardOutcome::Queued));
    assert!(!publishes_event_log(CanForwardOutcome::TimedOut));
    let status = Event::ControlStatusChanged {
        can_setup_motor: true,
        can_precharge: false,
        can_ready_for_propulsion: false,
        can_accelerate: true,
    };
    assert_eq!(can_message_for_event(&status), None);
    assert!(publishes_event_log(forward_outcome(&status, false)));
}
