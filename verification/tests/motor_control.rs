use hyped_boards_stm32f767zi::messages::{Board, CanMessage, Event, Reason};
use hyped_boards_stm32f767zi::motor::{
    braking_start, braking_step, motor_error_response, warning_log_lines, BrakeAction,
    BrakingDecision,
};
use hyped_boards_stm32f767zi::motor::{
    decode_warning_bits, motor_frame_is_error, nmt_command_for, nmt_frame_data,
    read_warning_response, run_operational_sequence, run_setup_sequence, sdo_frame_id,
    sdo_read_request, Actuation, BrakePropulsionState, FrameId, MotorCommandState, MotorMessage,
    MotorWarning, WarningReadOutcome, SDO_RX_ID, WARNING_OBJECT_INDEX,
};
use hyped_boards_stm32f767zi::navigation::{
    decode_nav_command, motor_message_for_nav_command, record_can_error, NavCommand,
    OnQueueFailure,
};

#[test]
fn nmt_routing() {
    assert_eq!(nmt_command_for(&MotorMessage::EnterStopState), Some(0x02));
    assert_eq!(nmt_command_for(&MotorMessage::EnterPreoperationalState), Some(0x80));
    assert_eq!(nmt_command_for(&MotorMessage::EnterOperationalState), Some(0x01));
    assert_eq!(nmt_command_for(&MotorMessage::StartDrive), None);
    assert_eq!(nmt_frame_data(0x80), [0x80, 0x01]);
    assert_eq!(sdo_frame_id(0x601), FrameId::Standard(0x601));
    assert_eq!(sdo_frame_id(0x7FF), FrameId::Standard(0x7FF));
    assert_eq!(sdo_frame_id(0x800), FrameId::Extended(0x800));
}

#[test]
fn motor_error_frames() {
    assert!(motor_frame_is_error(0x081, &[0x10, 0x00, 0, 0]));
    assert!(!motor_frame_is_error(0x081, &[0x00, 0x00, 5]));
    assert!(!motor_frame_is_error(0x081, &[0x10]));
    assert!(motor_frame_is_error(0x581, &[0x80, 0x27, 0x20]));
    assert!(!motor_frame_is_error(0x581, &[0x43]));
    assert!(!motor_frame_is_error(0x581, &[]));
    assert!(!motor_frame_is_error(0x582, &[0x80]));
}

#[test]
fn setup_and_operation_run_once_and_in_order() {
    let mut s = MotorCommandState::new();
    // not set up: operational and acceleration commands are ignored
    let step = s.handle(&Event::MotorControllerSetOperationalCommand);
    assert!(step.commands.is_empty() && step.reply.is_none());
    let step = s.handle(&Event::StartPropulsionAccelerationCommand);
    assert!(step.commands.is_empty() && step.reply.is_none());

    let step = s.handle(&Event::MotorControllerSetupCommand);
    assert_eq!(step.commands, run_setup_sequence());
    assert_eq!(step.commands.len(), 10);
    assert_eq!(step.commands[0], (MotorMessage::TestModeCommand(0), 1));
    assert_eq!(step.reply, Some(CanMessage::MotorControllerSetupComplete));
    // repeated: answered, nothing run
    let step = s.handle(&Event::MotorControllerSetupCommand);
    assert!(step.commands.is_empty());
    assert_eq!(step.reply, Some(CanMessage::MotorControllerSetupComplete));

    let step = s.handle(&Event::MotorControllerSetOperationalCommand);
    assert_eq!(step.commands, run_operational_sequence());
    assert_eq!(step.commands[0], (MotorMessage::EnterPreoperationalState, 30));
    assert_eq!(step.commands[4], (MotorMessage::StartDrive, 15));
    assert_eq!(step.reply, Some(CanMessage::MotorControllerOperational));

    let step = s.handle(&Event::StartPropulsionAccelerationCommand);
    assert_eq!(step.commands, vec![(MotorMessage::TestModeCommand(200), 3)]);
    assert_eq!(step.reply, Some(CanMessage::PropulsionAccelerationStarted));
    assert_eq!(s, MotorCommandState { setup_complete: true, operational: true });
}

#[test]
fn brake_and_propulsion_commands_are_idempotent() {
    let mut s = BrakePropulsionState::new();
    assert!(s.brakes_clamped && !s.propulsion_active);
    let r = s.handle(&Event::ClampBrakesCommand);
    assert!(r.actuations.is_empty());
    assert_eq!(r.reply, Some(Event::BrakesClamped { from: Board::MotorControl }));
    assert_eq!(r.count, Some(1));

    let r = s.handle(&Event::UnclampBrakesCommand);
    assert_eq!(r.actuations, vec![Actuation::ReleaseBrakeSolenoid]);
    let r = s.handle(&Event::UnclampBrakesCommand);
    assert!(r.actuations.is_empty());
    assert_eq!(r.reply, Some(Event::BrakesUnclamped { from: Board::MotorControl }));
    assert_eq!(r.count, Some(2));

    let r = s.handle(&Event::StartPropulsionAccelerationCommand);
    assert_eq!(r.actuations, vec![Actuation::Send(MotorMessage::StartDrive)]);
    assert_eq!(r.reply, Some(Event::PropulsionAccelerationStarted));
    let r = s.handle(&Event::StartPropulsionBrakingCommand);
    assert_eq!(r.actuations, vec![Actuation::Send(MotorMessage::QuickStop), Actuation::Send(MotorMessage::Shutdown)]);
    let r = s.handle(&Event::StartPropulsionBrakingCommand);
    assert!(r.actuations.is_empty());
    assert_eq!(r.reply, Some(Event::PropulsionBrakingStarted));

    let r = s.handle(&Event::ClampBrakesCommand);
    assert_eq!(r.actuations, vec![Actuation::EngageBrakeSolenoid]);
    let r = s.handle(&Event::PrechargeComplete);
    assert!(r.actuations.is_empty() && r.reply.is_none() && r.count.is_none());
}

#[test]
fn navigation_commands() {
    assert_eq!(decode_nav_command(&[]), NavCommand::Empty);
    assert_eq!(decode_nav_command(&[0x01]), NavCommand::StartDrive);
    assert_eq!(decode_nav_command(&[0x02, 9]), NavCommand::Shutdown);
    assert_eq!(decode_nav_command(&[0x03]), NavCommand::QuickStop);
    assert_eq!(decode_nav_command(&[0x04]), NavCommand::SwitchOn);
    assert_eq!(decode_nav_command(&[0x05, 200, 0, 0]), NavCommand::MissingFrequency);
    assert_eq!(decode_nav_command(&[0x05, 200, 0, 0, 0]), NavCommand::SetFrequency(200));
    assert_eq!(decode_nav_command(&[0x05, 0x10, 0x27, 0, 0, 1]), NavCommand::SetFrequency(10_000));
    assert_eq!(decode_nav_command(&[0x09]), NavCommand::Unknown(9));
    assert_eq!(motor_message_for_nav_command(&NavCommand::Shutdown), Some((MotorMessage::Shutdown, OnQueueFailure::Emergency)));
    assert_eq!(motor_message_for_nav_command(&NavCommand::StartDrive), Some((MotorMessage::StartDrive, OnQueueFailure::Log)));
    assert_eq!(motor_message_for_nav_command(&NavCommand::SetFrequency(5)), Some((MotorMessage::SetFrequency(5), OnQueueFailure::Ignore)));
    assert_eq!(motor_message_for_nav_command(&NavCommand::Unknown(7)), None);
}

#[test]
fn can_errors_become_an_emergency_after_the_threshold() {
    let mut count = 0;
    for _ in 0..10 {
        let (c, emergency) = record_can_error(count);
        assert!(!emergency);
        count = c;
    }
    assert_eq!(count, 10);
    assert_eq!(record_can_error(count), (11, true));
    assert_eq!(record_can_error(u32::MAX), (0, true));
}

#[test]
fn warning_register() {
    assert_eq!(decode_warning_bits(0), vec![]);
    assert_eq!(
        decode_warning_bits(0b101_0000_0001),
        vec![MotorWarning::ControllerTemperatureExceeded, MotorWarning::CapacitorTemperatureExceeded, MotorWarning::FieldWeakeningActive]
    );
    assert_eq!(decode_warning_bits(1 << 11), vec![]);
    assert_eq!(decode_warning_bits(0b10_0000), vec![MotorWarning::StallProtectionActive]);
    assert_eq!(sdo_read_request(WARNING_OBJECT_INDEX, 0), [0x40, 0x27, 0x20, 0, 0, 0, 0, 0]);
}

#[test]
fn warning_read_answers() {
    let id = Some(SDO_RX_ID);
    assert_eq!(read_warning_response(None, &[0x43; 8]), WarningReadOutcome::NotForUs);
    assert_eq!(read_warning_response(Some(0x582), &[0x43; 8]), WarningReadOutcome::NotForUs);
    assert_eq!(read_warning_response(id, &[0x43, 0x27, 0x20]), WarningReadOutcome::ShortFrame);
    assert_eq!(read_warning_response(id, &[0x43, 0x27, 0x20, 0, 1, 2, 0, 0]), WarningReadOutcome::Warnings(0x0201));
    assert_eq!(read_warning_response(id, &[0x4B, 0x27, 0x20, 0, 1, 2, 9, 9]), WarningReadOutcome::Warnings(0x0201));
    assert_eq!(read_warning_response(id, &[0x4F, 0x27, 0x20, 0, 7, 2, 9, 9]), WarningReadOutcome::Warnings(7));
    assert_eq!(read_warning_response(id, &[0x43, 0x28, 0x20, 0, 1, 2, 0, 0]), WarningReadOutcome::Unrelated);
    assert_eq!(read_warning_response(id, &[0x80, 0x27, 0x20, 0, 0x11, 0, 0, 0x06]), WarningReadOutcome::Aborted(0x0600_0011));
}

#[test]
fn braking_latch() {
    assert_eq!(braking_step(false, BrakingDecision::Wait), (false, vec![]));
    assert_eq!(braking_step(false, BrakingDecision::Release), (false, vec![]));
    assert_eq!(
        braking_step(false, BrakingDecision::DataTimeout),
        (true, vec![BrakeAction::Send(MotorMessage::QuickStop), BrakeAction::SolenoidLow])
    );
    assert_eq!(
        braking_step(false, BrakingDecision::LostPosition),
        (true, vec![BrakeAction::Send(MotorMessage::QuickStop), BrakeAction::SolenoidLow])
    );
    assert_eq!(
        braking_step(false, BrakingDecision::Brake),
        (true, vec![BrakeAction::Send(MotorMessage::QuickStop), BrakeAction::Send(MotorMessage::Shutdown), BrakeAction::SolenoidLow])
    );
    // latched: nothing more is sent, and a release does nothing
    assert_eq!(braking_step(true, BrakingDecision::Brake), (true, vec![]));
    assert_eq!(braking_step(true, BrakingDecision::DataTimeout), (true, vec![]));
    assert_eq!(braking_step(true, BrakingDecision::Release), (true, vec![]));
    assert_eq!(braking_step(true, BrakingDecision::Wait), (true, vec![]));
}

#[test]
fn braking_starts_unclamped_and_never_releases_after_engaging() {
    assert_eq!(braking_start(), (false, vec![BrakeAction::SolenoidHigh]));
    let decisions = [
        BrakingDecision::Wait,
        BrakingDecision::Release,
        BrakingDecision::Brake,
        BrakingDecision::Release,
        BrakingDecision::DataTimeout,
        BrakingDecision::Release,
    ];
    let mut engaged = false;
    let mut all = Vec::new();
    for d in decisions {
        let (next, actions) = braking_step(engaged, d);
        engaged = next;
        all.extend(actions);
    }
    assert!(engaged);
    assert_eq!(
        all,
        vec![BrakeAction::Send(MotorMessage::QuickStop), BrakeAction::Send(MotorMessage::Shutdown), BrakeAction::SolenoidLow]
    );
}

#[test]
fn warning_lines_for_the_register() {
    assert_eq!(warning_log_lines(0), vec!["No active warnings"]);
    assert_eq!(
        warning_log_lines(0x405),
        vec![
            "Active warnings:",
            " - Controller temperature exceeded",
            " - DC link under voltage",
            " - Field weakening active",
        ]
    );
    // bits past the known warnings log only the heading
    assert_eq!(warning_log_lines(1 << 11), vec!["Active warnings:"]);
    let all = warning_log_lines(0x7FF);
    assert_eq!(all.len(), 12);
    assert_eq!(all[2], " - Motor temperature exceeded");
    assert_eq!(all[4], " - DC link over voltage");
    assert_eq!(all[5], " - DC link over current");
    assert_eq!(all[6], " - Stall protection active");
    assert_eq!(all[7], " - Max velocity exceeded");
    assert_eq!(all[8], " - BMS proposed power");
    assert_eq!(all[9], " - Capacitor temperature exceeded");
    assert_eq!(all[10], " - I2T protection");
}

#[test]
fn motor_error_raises_emergency() {
    assert_eq!(
        motor_error_response(0x081, &[0x10, 0x00]),
        Some((
            CanMessage::Emergency(Board::MotorControl, Reason::Unknown),
            Event::Emergency { from: Board::MotorControl, reason: Reason::Unknown }
        ))
    );
    assert_eq!(
        motor_error_response(0x581, &[0x80]),
        Some((
            CanMessage::Emergency(Board::MotorControl, Reason::Unknown),
            Event::Emergency { from: Board::MotorControl, reason: Reason::Unknown }
        ))
    );
    assert_eq!(motor_error_response(0x081, &[0, 0]), None);
    assert_eq!(motor_error_response(0x181, &[1, 2, 3]), None);
}

#[test]
fn command_counters_wrap() {
    let mut s = BrakePropulsionState::new();
    s.unclamp_cmd_count = u32::MAX;
    let r = s.handle(&Event::UnclampBrakesCommand);
    assert_eq!(r.count, Some(0));
    assert_eq!(s.unclamp_cmd_count, 0);
    assert_eq!(r.actuations, vec![Actuation::ReleaseBrakeSolenoid]);
    assert_eq!(r.reply, Some(Event::BrakesUnclamped { from: Board::MotorControl }));
}

#[test]
fn replies_follow_each_command_and_repeats_actuate_nothing() {
    let mut s = BrakePropulsionState::new();
    let events = [
        Event::UnclampBrakesCommand,
        Event::UnclampBrakesCommand,
        Event::ClampBrakesCommand,
        Event::StartPropulsionAccelerationCommand,
        Event::StartPropulsionAccelerationCommand,
        Event::StartPropulsionBrakingCommand,
        Event::IdleOperatorCommand,
    ];
    let mut replies = Vec::new();
    let mut actuations = Vec::new();
    for e in events.iter() {
        let r = s.handle(e);
        replies.push(r.reply);
        actuations.extend(r.actuations);
    }
    assert_eq!(
        replies,
        vec![
            Some(Event::BrakesUnclamped { from: Board::MotorControl }),
            Some(Event::BrakesUnclamped { from: Board::MotorControl }),
            Some(Event::BrakesClamped { from: Board::MotorControl }),
            Some(Event::PropulsionAccelerationStarted),
            Some(Event::PropulsionAccelerationStarted),
            Some(Event::PropulsionBrakingStarted),
            None,
        ]
    );
    assert_eq!(
        actuations,
        vec![
            Actuation::ReleaseBrakeSolenoid,
            Actuation::EngageBrakeSolenoid,
            Actuation::Send(MotorMessage::StartDrive),
            Actuation::Send(MotorMessage::QuickStop),
            Actuation::Send(MotorMessage::Shutdown),
        ]
    );
    assert!(s.brakes_clamped);
    assert!(!s.propulsion_active);
}
