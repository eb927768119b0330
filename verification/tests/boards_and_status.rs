use hyped_boards_stm32f767zi::boards::{
    heartbeat_board_index, high_power_respond_to_message, hval_changes, imd_emergency,
    imd_reading, interrupts_relay_wait, led_board_respond_to_event,
    missing_heartbeat_emergency, no_initial_heartbeat_emergency, open_precharge_relays,
    pneumatics_respond_to_message, pressure_emergency, pressures_safe, propulsion_status,
    respond_to_message, send_velocity_profile, sensors_board_respond_to_message, BoardStep,
    EndOfTrackLatch, HeartbeatMonitor, HighPowerRun, HvalReport, NavSimulator, NavSimulatorAction, Output,
};
use hyped_boards_stm32f767zi::messages::{
    Board, CanData, CanMessage, Event, Heartbeat, MeasurementId, MeasurementReading, Reason,
};
use hyped_boards_stm32f767zi::status::{
    bool_to_status, safety_status_report, set_brake_clamp_status, set_hval_status,
    set_imd_status, status_payload, SafetyStatuses, SafetyTopic,
};

#[test]
fn statuses_start_unknown_and_are_set() {
    let mut s = SafetyStatuses::new();
    assert_eq!((s.imd, s.hval_red, s.hval_green, s.brake_clamp), (2, 2, 2, 2));
    set_imd_status(&mut s, true);
    set_hval_status(&mut s, Some(false), None);
    assert_eq!((s.imd, s.hval_red, s.hval_green, s.brake_clamp), (1, 0, 2, 2));
    set_hval_status(&mut s, None, Some(true));
    set_brake_clamp_status(&mut s, false);
    assert_eq!((s.imd, s.hval_red, s.hval_green, s.brake_clamp), (1, 0, 1, 0));
    assert_eq!(bool_to_status(true), 1);
    assert_eq!(bool_to_status(false), 0);
}

#[test]
fn status_payloads() {
    assert_eq!(status_payload(0), "0");
    assert_eq!(status_payload(1), "1");
    assert_eq!(status_payload(2), "2");
    assert_eq!(status_payload(200), "2");
    let mut s = SafetyStatuses::new();
    set_imd_status(&mut s, false);
    assert_eq!(
        safety_status_report(&s),
        vec![
            (SafetyTopic::ImdStatus, "0"),
            (SafetyTopic::HvalRedStatus, "2"),
            (SafetyTopic::HvalGreenStatus, "2"),
            (SafetyTopic::BrakeClampStatus, "2"),
        ]
    );
}

#[test]
fn simulator_answers() {
    let r = respond_to_message(&CanMessage::StartPrechargeCommand);
    assert_eq!(r.len(), 6);
    assert_eq!(r[0], (2000, CanMessage::PrechargeStarted));
    assert_eq!(r[5], (2000, CanMessage::PrechargeComplete));
    assert_eq!(respond_to_message(&CanMessage::ClampBrakesCommand), vec![(100, CanMessage::BrakesClamped { from: Board::Pneumatics })]);
    let r = respond_to_message(&CanMessage::StartPropulsionAccelerationCommand);
    assert_eq!(r.len(), 2 + 12);
    assert_eq!(r[1], (100, propulsion_status(0)));
    assert_eq!(r[2], (0, CanMessage::MeasurementReading(MeasurementReading { reading: CanData::U16(0), board: Board::Navigation, measurement_id: MeasurementId::Velocity })));
    assert_eq!(r[12], (1000, CanMessage::MeasurementReading(MeasurementReading { reading: CanData::U16(10), board: Board::Navigation, measurement_id: MeasurementId::Velocity })));
    assert_eq!(r[13], (0, CanMessage::EndOfTrackBrake));
    assert_eq!(send_velocity_profile().len(), 12);
    assert!(respond_to_message(&CanMessage::PrechargeStarted).is_empty());
    assert_eq!(
        propulsion_status(7),
        CanMessage::PropulsionStatus { current_ma: 0, velocity_kmh: 7, temperature_c: 25, voltage_cv: 0 }
    );
}

#[test]
fn pneumatics_drive_the_brakes() {
    assert_eq!(
        pneumatics_respond_to_message(&CanMessage::UnclampBrakesCommand),
        vec![BoardStep::Drive(Output::BrakeSolenoid, true), BoardStep::Send(CanMessage::BrakesUnclamped { from: Board::Pneumatics })]
    );
    assert_eq!(
        pneumatics_respond_to_message(&CanMessage::Emergency(Board::Telemetry, Reason::IMD)),
        vec![BoardStep::Drive(Output::BrakeSolenoid, false)]
    );
    assert!(pneumatics_respond_to_message(&CanMessage::PrechargeStarted).is_empty());
}

#[test]
fn high_power_reports_every_relay() {
    let r = high_power_respond_to_message(&CanMessage::StartPrechargeCommand);
    assert_eq!(r.len(), 11);
    for i in 0..r.len() {
        if let BoardStep::Drive(o, closed) = r[i] {
            let report = match (o, closed) {
                (Output::ShutdownCircuitryRelay, true) => CanMessage::ShutdownCircuitryRelayClosed,
                (Output::BatteryPrechargeRelay, true) => CanMessage::BatteryPrechargeRelayClosed,
                (Output::MotorControllerRelay, true) => CanMessage::MotorControllerRelayClosed,
                _ => unreachable!(),
            };
            assert_eq!(r[i + 1], BoardStep::Send(report));
        }
    }
    assert_eq!(r[3], BoardStep::WaitInterruptibly(10));
    assert_eq!(high_power_respond_to_message(&CanMessage::Emergency(Board::Telemetry, Reason::Unknown)), open_precharge_relays());
    assert_eq!(high_power_respond_to_message(&CanMessage::OpenPrechargeRelaysCommand), open_precharge_relays());
    assert!(interrupts_relay_wait(&CanMessage::OpenPrechargeRelaysCommand));
    assert!(interrupts_relay_wait(&CanMessage::Emergency(Board::Navigation, Reason::Pressure)));
    assert!(!interrupts_relay_wait(&CanMessage::StartPrechargeCommand));
    let d = high_power_respond_to_message(&CanMessage::StartDischargeCommand);
    assert_eq!(d[3], BoardStep::WaitInterruptibly(30));
}

#[test]
fn sensors_and_led_boards() {
    let r = sensors_board_respond_to_message(&CanMessage::StartPrechargeCommand);
    assert_eq!(r.len(), 16);
    assert_eq!(r[15], BoardStep::Send(CanMessage::PrechargeComplete));
    assert_eq!(sensors_board_respond_to_message(&CanMessage::UnclampBrakesCommand), vec![BoardStep::Send(CanMessage::BrakesUnclamped { from: Board::Sensors2 })]);
    let l = led_board_respond_to_event(&Event::StartPrechargeCommand);
    assert_eq!(l[0], BoardStep::Publish(Event::PrechargeStarted));
    assert_eq!(l[2], BoardStep::Wait(10));
    assert!(led_board_respond_to_event(&Event::PrechargeStarted).is_empty());
}

#[test]
fn pressures_and_emergencies() {
    assert!(pressures_safe(true, &[false, false, false]));
    assert!(!pressures_safe(true, &[false, true]));
    assert!(!pressures_safe(false, &[]));
    assert_eq!(pressure_emergency(), CanMessage::Emergency(Board::Sensors2, Reason::Pressure));
    assert_eq!(imd_emergency(), CanMessage::Emergency(Board::Telemetry, Reason::IMD));
    assert_eq!(imd_reading(321), CanMessage::MeasurementReading(MeasurementReading { reading: CanData::U16(321), board: Board::Telemetry, measurement_id: MeasurementId::ImdIsoCorrected }));
    assert_eq!(no_initial_heartbeat_emergency(), CanMessage::Emergency(Board::Telemetry, Reason::NoInitialHeartbeat));
    assert_eq!(missing_heartbeat_emergency(), CanMessage::Emergency(Board::Telemetry, Reason::MissingHeartbeat));
}

#[test]
fn hval_reports_only_changes() {
    let (m, r) = hval_changes(&HvalReport { red: None, green: None }, true, false);
    assert_eq!(m, vec![CanMessage::HvalRedStatus(true), CanMessage::HvalGreenStatus(false)]);
    let (m, r) = hval_changes(&r, true, false);
    assert!(m.is_empty());
    let (m, _) = hval_changes(&r, true, true);
    assert_eq!(m, vec![CanMessage::HvalGreenStatus(true)]);
}

#[test]
fn nav_simulator_brakes_only_in_its_generation() {
    let mut s = NavSimulator::new();
    let a = s.handle(&Event::StartPropulsionAccelerationCommand);
    assert_eq!(a, NavSimulatorAction::StartBrakeTimer(1));
    let a2 = s.handle(&Event::StartPropulsionAccelerationCommand);
    assert_eq!(a2, NavSimulatorAction::StartBrakeTimer(2));
    // the first timer is stale
    assert!(!s.brake_timer_expired(1));
    assert!(s.brake_timer_expired(2));
    assert!(!s.armed);
    assert!(!s.brake_timer_expired(2));
    s.handle(&Event::StartPropulsionAccelerationCommand);
    assert_eq!(s.handle(&Event::EndOfTrackBrakeCommand), NavSimulatorAction::ReportStopped);
    assert!(!s.brake_timer_expired(3));
    assert_eq!(s.handle(&Event::PrechargeStarted), NavSimulatorAction::Nothing);
}

#[test]
fn end_of_track_brake_once_per_arming() {
    let mut l = EndOfTrackLatch::new();
    assert!(!l.should_brake(true));
    assert!(!l.handle(&Event::StartPropulsionAccelerationCommand));
    assert!(!l.should_brake(false));
    assert!(l.should_brake(true));
    assert!(!l.should_brake(true));
    assert!(l.handle(&Event::StartPropulsionBrakingCommand));
    assert!(!l.should_brake(true));
    l.handle(&Event::StartPropulsionAccelerationCommand);
    assert!(l.should_brake(true));
}

#[test]
fn heartbeat_monitor_tracks_boards() {
    assert_eq!(heartbeat_board_index(Board::MotorControl), Some(0));
    assert_eq!(heartbeat_board_index(Board::Navigation), Some(3));
    assert_eq!(heartbeat_board_index(Board::Telemetry), None);
    let mut m = HeartbeatMonitor::new(0);
    assert!(!m.all_seen());
    for (b, t) in [(Board::MotorControl, 10), (Board::Sensors1, 20), (Board::Sensors2, 30)] {
        m.record(&Heartbeat { from: b, to: Board::Telemetry }, t);
    }
    // not addressed to telemetry: ignored
    m.record(&Heartbeat { from: Board::Navigation, to: Board::MotorControl }, 40);
    assert!(!m.all_seen());
    m.record(&Heartbeat { from: Board::Navigation, to: Board::Telemetry }, 50);
    assert!(m.all_seen());
    assert_eq!(m.first_silent_board(100, 100), None);
    assert_eq!(m.first_silent_board(115, 100), Some(Board::MotorControl));
    m.record(&Heartbeat { from: Board::MotorControl, to: Board::Telemetry }, 100);
    assert_eq!(m.first_silent_board(125, 100), Some(Board::Sensors1));
}

#[test]
fn precharge_interrupted_at_a_wait_opens_the_relays() {
    let mut run = HighPowerRun::start(&CanMessage::StartPrechargeCommand);
    let mut done = Vec::new();
    // nothing interrupts before a wait is handed out
    assert_eq!(run.message_during_wait(&CanMessage::OpenPrechargeRelaysCommand), None);
    loop {
        let step = run.next_step().expect("a step");
        done.push(step);
        if let BoardStep::WaitInterruptibly(10) = step {
            break;
        }
    }
    // an unrelated message during the wait changes nothing
    assert_eq!(run.message_during_wait(&CanMessage::PrechargeStarted), None);
    let opened = run
        .message_during_wait(&CanMessage::Emergency(Board::Navigation, Reason::Unknown))
        .expect("interrupted");
    assert_eq!(opened, open_precharge_relays());
    assert_eq!(run.next_step(), None);
    done.extend(opened);
    assert!(!done.contains(&BoardStep::Send(CanMessage::PrechargeVoltageOK)));
    assert!(!done.contains(&BoardStep::Send(CanMessage::PrechargeComplete)));
    assert!(!done.contains(&BoardStep::Drive(Output::MotorControllerRelay, true)));
    assert_eq!(&done[done.len() - 6..], &open_precharge_relays()[..]);
}

#[test]
fn precharge_runs_to_its_end_without_interruption() {
    let mut run = HighPowerRun::start(&CanMessage::StartPrechargeCommand);
    let mut done = Vec::new();
    while let Some(step) = run.next_step() {
        if let BoardStep::WaitInterruptibly(_) = step {
            assert_eq!(run.message_during_wait(&CanMessage::Heartbeat(Heartbeat { from: Board::Telemetry, to: Board::HighPower })), None);
        }
        done.push(step);
    }
    assert_eq!(done, high_power_respond_to_message(&CanMessage::StartPrechargeCommand));
    assert!(run.finished);
    assert!(!run.interrupted);
}

#[test]
fn nav_simulator_generation_wraps() {
    let mut s = NavSimulator { armed: false, generation: u32::MAX };
    assert_eq!(s.handle(&Event::StartPropulsionAccelerationCommand), NavSimulatorAction::StartBrakeTimer(0));
    assert!(!s.brake_timer_expired(u32::MAX));
    assert!(s.brake_timer_expired(0));
}

#[test]
fn nav_simulator_timer_cancelled_by_a_later_command() {
    let mut s = NavSimulator::new();
    let g = match s.handle(&Event::StartPropulsionAccelerationCommand) {
        NavSimulatorAction::StartBrakeTimer(g) => g,
        other => panic!("unexpected {:?}", other),
    };
    s.handle(&Event::PrechargeStarted);
    s.handle(&Event::StartPropulsionBrakingCommand);
    assert!(!s.brake_timer_expired(g));
}

#[test]
fn end_of_track_brake_not_resent_without_rearming() {
    let mut l = EndOfTrackLatch::new();
    l.handle(&Event::StartPropulsionAccelerationCommand);
    assert!(l.should_brake(true));
    assert!(l.brake_sent);
    for past in [true, false, true, true] {
        assert!(!l.should_brake(past));
        assert!(l.brake_sent);
    }
    l.handle(&Event::PrechargeStarted);
    assert!(!l.should_brake(true));
}
