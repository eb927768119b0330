//! What each board of the pod does in answer to the messages it receives:
//! the board simulator, the pneumatics, high-power and sensors boards, and
//! the navigation arming logic.
use crate::messages::{
    Board, CanData, CanMessage, Event, Heartbeat, MeasurementId, MeasurementReading, Reason,
};
use vstd::prelude::*;

verus! {

/// A message the simulator sends after waiting a number of milliseconds.
pub type DelayedMessage = (u64, CanMessage);

/// The propulsion status the simulator reports at a speed, in km/h.
pub open spec fn simulated_status(velocity_kmh: u16) -> CanMessage {
    CanMessage::PropulsionStatus {
        current_ma: 0,
        velocity_kmh,
        temperature_c: 25,
        voltage_cv: 0,
    }
}

/// The propulsion status the simulator reports at a speed, in km/h.
pub fn propulsion_status(velocity_kmh: u16) -> (m: CanMessage)
    ensures
        m == simulated_status(velocity_kmh),
{
    CanMessage::PropulsionStatus { current_ma: 0, velocity_kmh, temperature_c: 25, voltage_cv: 0 }
}

/// A simulated velocity reading from the navigation board.
pub open spec fn velocity_reading(v: u16) -> CanMessage {
    CanMessage::MeasurementReading(
        MeasurementReading {
            reading: CanData::U16(v),
            board: Board::Navigation,
            measurement_id: MeasurementId::Velocity,
        },
    )
}

/// The simulated run: velocity readings 0 to 10, one second apart, then
/// the end-of-track brake at once.
pub open spec fn velocity_profile() -> Seq<DelayedMessage> {
    Seq::new(11, |i: int| (if i == 0 { 0u64 } else { 1000u64 }, velocity_reading(i as u16))).push(
        (0u64, CanMessage::EndOfTrackBrake),
    )
}

/// The simulated run: velocity readings 0 to 10, one second apart, then
/// the end-of-track brake.
pub fn send_velocity_profile() -> (v: Vec<DelayedMessage>)
    ensures
        v@ == velocity_profile(),
{
    let mut v: Vec<DelayedMessage> = Vec::new();
    let mut velocity: u16 = 0;
    while velocity <= 10
        invariant
            velocity <= 11,
            v@ == Seq::new(
                velocity as nat,
                |i: int| (if i == 0 { 0u64 } else { 1000u64 }, velocity_reading(i as u16)),
            ),
        decreases 11 - velocity,
    {
        let wait = if velocity == 0 {
            0
        } else {
            1000
        };
        v.push(
            (
                wait,
                CanMessage::MeasurementReading(
                    MeasurementReading {
                        reading: CanData::U16(velocity),
                        board: Board::Navigation,
                        measurement_id: MeasurementId::Velocity,
                    },
                ),
            ),
        );
        velocity = velocity + 1;
        assert(v@ =~= Seq::new(
            velocity as nat,
            |i: int| (if i == 0 { 0u64 } else { 1000u64 }, velocity_reading(i as u16)),
        ));
    }
    v.push((0, CanMessage::EndOfTrackBrake));
    assert(v@ =~= velocity_profile());
    v
}

/// The simulator's answers to a message, each after its wait: it plays the
/// other boards of the pod.
pub open spec fn simulator_answers(m: CanMessage) -> Seq<DelayedMessage> {
    match m {
        CanMessage::StartPrechargeCommand => seq![
            (2000u64, CanMessage::PrechargeStarted),
            (2000u64, CanMessage::ShutdownCircuitryRelayClosed),
            (2000u64, CanMessage::BatteryPrechargeRelayClosed),
            (2000u64, CanMessage::MotorControllerRelayClosed),
            (2000u64, CanMessage::PrechargeVoltageOK),
            (2000u64, CanMessage::PrechargeComplete),
        ],
        CanMessage::OpenPrechargeRelaysCommand => seq![
            (100u64, CanMessage::BatteryPrechargeRelayOpen),
            (100u64, CanMessage::MotorControllerRelayOpen),
        ],
        CanMessage::MotorControllerSetupCommand => seq![
            (100u64, CanMessage::MotorControllerSetupComplete),
        ],
        CanMessage::MotorControllerSetOperationalCommand => seq![
            (100u64, CanMessage::MotorControllerOperational),
        ],
        CanMessage::UnclampBrakesCommand => seq![
            (100u64, CanMessage::BrakesUnclamped { from: Board::Pneumatics }),
        ],
        CanMessage::ClampBrakesCommand => seq![
            (100u64, CanMessage::BrakesClamped { from: Board::Pneumatics }),
        ],
        CanMessage::StartPropulsionAccelerationCommand => seq![
            (100u64, CanMessage::PropulsionAccelerationStarted),
            (100u64, simulated_status(0)),
        ] + velocity_profile(),
        CanMessage::StartPropulsionBrakingCommand => seq![
            (100u64, CanMessage::PropulsionBrakingStarted),
            (100u64, simulated_status(0)),
        ],
        CanMessage::StartDischargeCommand => seq![
            (100u64, CanMessage::DischargeStarted),
            (100u64, CanMessage::DischargeRelayClosed),
            (100u64, CanMessage::ShutdownCircuitryRelayOpen),
            (100u64, CanMessage::DischargeVoltageOK),
            (100u64, CanMessage::DischargeComplete),
        ],
        _ => Seq::empty(),
    }
}

/// The board simulator's answers to a message, in order, each with the
/// milliseconds to wait before sending it.
pub fn respond_to_message(message: &CanMessage) -> (r: Vec<DelayedMessage>)
    ensures
        r@ == simulator_answers(*message),
{
    let mut r: Vec<DelayedMessage> = Vec::new();
    match message {
        CanMessage::StartPrechargeCommand => {
            r.push((2000, CanMessage::PrechargeStarted));
            r.push((2000, CanMessage::ShutdownCircuitryRelayClosed));
            r.push((2000, CanMessage::BatteryPrechargeRelayClosed));
            r.push((2000, CanMessage::MotorControllerRelayClosed));
            r.push((2000, CanMessage::PrechargeVoltageOK));
            r.push((2000, CanMessage::PrechargeComplete));
        },
        CanMessage::OpenPrechargeRelaysCommand => {
            r.push((100, CanMessage::BatteryPrechargeRelayOpen));
            r.push((100, CanMessage::MotorControllerRelayOpen));
        },
        CanMessage::MotorControllerSetupCommand => {
            r.push((100, CanMessage::MotorControllerSetupComplete));
        },
        CanMessage::MotorControllerSetOperationalCommand => {
            r.push((100, CanMessage::MotorControllerOperational));
        },
        CanMessage::UnclampBrakesCommand => {
            r.push((100, CanMessage::BrakesUnclamped { from: Board::Pneumatics }));
        },
        CanMessage::ClampBrakesCommand => {
            r.push((100, CanMessage::BrakesClamped { from: Board::Pneumatics }));
        },
        CanMessage::StartPropulsionAccelerationCommand => {
            r.push((100, CanMessage::PropulsionAccelerationStarted));
            r.push((100, propulsion_status(0)));
            let mut profile = send_velocity_profile();
            r.append(&mut profile);
        },
        CanMessage::StartPropulsionBrakingCommand => {
            r.push((100, CanMessage::PropulsionBrakingStarted));
            r.push((100, propulsion_status(0)));
        },
        CanMessage::StartDischargeCommand => {
            r.push((100, CanMessage::DischargeStarted));
            r.push((100, CanMessage::DischargeRelayClosed));
            r.push((100, CanMessage::ShutdownCircuitryRelayOpen));
            r.push((100, CanMessage::DischargeVoltageOK));
            r.push((100, CanMessage::DischargeComplete));
        },
        _ => {},
    }
    assert(r@ =~= simulator_answers(*message));
    r
}


/// The simulator answers each command as the board it plays would: first
/// the acknowledgement named after the command, and, for a sequence, its
/// completion last: a precharge ends with its completion, after the three
/// relays are reported closed; a discharge ends with its completion; an
/// acceleration ends with the end-of-track brake; an isolation command is
/// answered only with relays reported open. A message that is no command gets no answer.
pub proof fn lemma_simulator_acknowledges(m: CanMessage)
    ensures
        ({
            let a = simulator_answers(m);
            &&& m is StartPrechargeCommand ==> a.len() >= 2 && a[0].1 == CanMessage::PrechargeStarted
                && a.last().1 == CanMessage::PrechargeComplete && (exists|i: int|
                0 <= i < a.len() - 1 && #[trigger] a[i].1 == CanMessage::ShutdownCircuitryRelayClosed)
                && (exists|i: int|
                0 <= i < a.len() - 1 && #[trigger] a[i].1 == CanMessage::BatteryPrechargeRelayClosed)
                && (exists|i: int|
                0 <= i < a.len() - 1 && #[trigger] a[i].1 == CanMessage::MotorControllerRelayClosed)
            &&& m is StartDischargeCommand ==> a.len() >= 2 && a[0].1 == CanMessage::DischargeStarted
                && a.last().1 == CanMessage::DischargeComplete
            &&& m is StartPropulsionAccelerationCommand ==> a.len() >= 2 && a[0].1
                == CanMessage::PropulsionAccelerationStarted && a.last().1
                == CanMessage::EndOfTrackBrake
            &&& m is StartPropulsionBrakingCommand ==> a.len() >= 1 && a[0].1
                == CanMessage::PropulsionBrakingStarted
            &&& m is ClampBrakesCommand ==> a.len() == 1 && a[0].1 == CanMessage::BrakesClamped {
                from: Board::Pneumatics,
            }
            &&& m is UnclampBrakesCommand ==> a.len() == 1 && a[0].1 == CanMessage::BrakesUnclamped {
                from: Board::Pneumatics,
            }
            &&& m is MotorControllerSetupCommand ==> a.len() == 1 && a[0].1
                == CanMessage::MotorControllerSetupComplete
            &&& m is MotorControllerSetOperationalCommand ==> a.len() == 1 && a[0].1
                == CanMessage::MotorControllerOperational
            &&& m is OpenPrechargeRelaysCommand ==> a.len() >= 1 && forall|i: int|
                0 <= i < a.len() ==> (#[trigger] a[i].1 is BatteryPrechargeRelayOpen
                    || a[i].1 is MotorControllerRelayOpen || a[i].1 is ShutdownCircuitryRelayOpen)
            &&& a.len() > 0 ==> (m is StartPrechargeCommand || m is StartDischargeCommand
                || m is StartPropulsionAccelerationCommand || m is StartPropulsionBrakingCommand
                || m is ClampBrakesCommand || m is UnclampBrakesCommand
                || m is MotorControllerSetupCommand || m is MotorControllerSetOperationalCommand
                || m is OpenPrechargeRelaysCommand)
        }),
{
    let a = simulator_answers(m);
    if m is StartPrechargeCommand {
        assert(a[1].1 == CanMessage::ShutdownCircuitryRelayClosed);
        assert(a[2].1 == CanMessage::BatteryPrechargeRelayClosed);
        assert(a[3].1 == CanMessage::MotorControllerRelayClosed);
    }
    if m is StartPropulsionAccelerationCommand {
        assert(a.last() == velocity_profile().last());
    }
}

/// An output pin that a board drives.
#[derive(Clone, Copy, PartialEq, Eq, Structural, Debug)]
pub enum Output {
    ShutdownCircuitryRelay,
    BatteryPrechargeRelay,
    MotorControllerRelay,
    /// The fourth output of the sensors board.
    Gpio4,
    /// Driven low, the brakes clamp.
    BrakeSolenoid,
    Led,
}

/// One step of a board's answer to a message.
#[derive(Clone, Copy, PartialEq, Eq, Structural, Debug)]
pub enum BoardStep {
    /// Drive an output high (`true`) or low.
    Drive(Output, bool),
    /// Send a message on the main bus.
    Send(CanMessage),
    /// Publish an event on the board's own bus.
    Publish(Event),
    /// Wait this many seconds.
    Wait(u64),
    /// Wait this many seconds while serving isolation commands: an
    /// isolation command or an emergency opens the relays and ends the
    /// answer.
    WaitInterruptibly(u64),
}

/// The pneumatics board's answer to a message: it drives the brakes and
/// reports them.
pub open spec fn pneumatics_answer(m: CanMessage) -> Seq<BoardStep> {
    match m {
        CanMessage::UnclampBrakesCommand => seq![
            BoardStep::Drive(Output::BrakeSolenoid, true),
            BoardStep::Send(CanMessage::BrakesUnclamped { from: Board::Pneumatics }),
        ],
        CanMessage::ClampBrakesCommand => seq![
            BoardStep::Drive(Output::BrakeSolenoid, false),
            BoardStep::Send(CanMessage::BrakesClamped { from: Board::Pneumatics }),
        ],
        CanMessage::Emergency(_, _) => seq![BoardStep::Drive(Output::BrakeSolenoid, false)],
        _ => Seq::empty(),
    }
}

/// The pneumatics board's answer to a message.
pub fn pneumatics_respond_to_message(message: &CanMessage) -> (r: Vec<BoardStep>)
    ensures
        r@ == pneumatics_answer(*message),
{
    let mut r: Vec<BoardStep> = Vec::new();
    match message {
        CanMessage::UnclampBrakesCommand => {
            r.push(BoardStep::Drive(Output::BrakeSolenoid, true));
            r.push(BoardStep::Send(CanMessage::BrakesUnclamped { from: Board::Pneumatics }));
        },
        CanMessage::ClampBrakesCommand => {
            r.push(BoardStep::Drive(Output::BrakeSolenoid, false));
            r.push(BoardStep::Send(CanMessage::BrakesClamped { from: Board::Pneumatics }));
        },
        CanMessage::Emergency(_, _) => {
            r.push(BoardStep::Drive(Output::BrakeSolenoid, false));
        },
        _ => {},
    }
    assert(r@ =~= pneumatics_answer(*message));
    r
}

/// The pneumatics board reports the brakes as its solenoid left them: a
/// clamp report comes right after the solenoid is driven low, an unclamp
/// report right after it is driven high, both from the pneumatics board.
/// Only an unclamp command drives the solenoid high; a clamp command and an
/// emergency drive it low; and the board drives no other output.
pub proof fn lemma_pneumatics_reports_follow_solenoid(m: CanMessage)
    ensures
        forall|i: int|
            #![trigger pneumatics_answer(m)[i]]
            0 <= i < pneumatics_answer(m).len() ==> {
                let step = pneumatics_answer(m)[i];
                &&& step matches BoardStep::Send(CanMessage::BrakesClamped { from }) ==> from
                    == Board::Pneumatics && i >= 1 && pneumatics_answer(m)[i - 1]
                    == BoardStep::Drive(Output::BrakeSolenoid, false)
                &&& step matches BoardStep::Send(CanMessage::BrakesUnclamped { from }) ==> from
                    == Board::Pneumatics && i >= 1 && pneumatics_answer(m)[i - 1]
                    == BoardStep::Drive(Output::BrakeSolenoid, true)
                &&& step == BoardStep::Drive(Output::BrakeSolenoid, true) ==> m is UnclampBrakesCommand
                &&& step matches BoardStep::Drive(o, _) ==> o == Output::BrakeSolenoid
            },
        (m is ClampBrakesCommand || m is Emergency) ==> pneumatics_answer(m).contains(
            BoardStep::Drive(Output::BrakeSolenoid, false),
        ),
        m is ClampBrakesCommand ==> pneumatics_answer(m).contains(
            BoardStep::Send(CanMessage::BrakesClamped { from: Board::Pneumatics }),
        ),
        m is UnclampBrakesCommand ==> pneumatics_answer(m).contains(
            BoardStep::Send(CanMessage::BrakesUnclamped { from: Board::Pneumatics }),
        ),
{
    let a = pneumatics_answer(m);
    if m is ClampBrakesCommand || m is UnclampBrakesCommand {
        assert(a[0] == a[0] && a[1] == a[1]);
    }
    if m is Emergency {
        assert(a[0] == BoardStep::Drive(Output::BrakeSolenoid, false));
    }
}

/// The message that reports a relay's new position, if the output is a
/// relay.
pub open spec fn relay_report(o: Output, closed: bool) -> Option<CanMessage> {
    match o {
        Output::ShutdownCircuitryRelay => Some(
            if closed {
                CanMessage::ShutdownCircuitryRelayClosed
            } else {
                CanMessage::ShutdownCircuitryRelayOpen
            },
        ),
        Output::BatteryPrechargeRelay => Some(
            if closed {
                CanMessage::BatteryPrechargeRelayClosed
            } else {
                CanMessage::BatteryPrechargeRelayOpen
            },
        ),
        Output::MotorControllerRelay => Some(
            if closed {
                CanMessage::MotorControllerRelayClosed
            } else {
                CanMessage::MotorControllerRelayOpen
            },
        ),
        _ => None,
    }
}

/// A relay is reported as it was driven: closed when driven high, open when
/// driven low, each relay under its own name; outputs that are no relays
/// are not reported.
pub proof fn lemma_relay_report_names(closed: bool)
    ensures
        relay_report(Output::ShutdownCircuitryRelay, closed) == Some(
            if closed {
                CanMessage::ShutdownCircuitryRelayClosed
            } else {
                CanMessage::ShutdownCircuitryRelayOpen
            },
        ),
        relay_report(Output::BatteryPrechargeRelay, closed) == Some(
            if closed {
                CanMessage::BatteryPrechargeRelayClosed
            } else {
                CanMessage::BatteryPrechargeRelayOpen
            },
        ),
        relay_report(Output::MotorControllerRelay, closed) == Some(
            if closed {
                CanMessage::MotorControllerRelayClosed
            } else {
                CanMessage::MotorControllerRelayOpen
            },
        ),
        relay_report(Output::Gpio4, closed) is None,
        relay_report(Output::BrakeSolenoid, closed) is None,
        relay_report(Output::Led, closed) is None,
{
}

/// Opening the precharge relays: each relay is opened and reported in turn.
pub open spec fn open_precharge_relays_steps() -> Seq<BoardStep> {
    seq![
        BoardStep::Drive(Output::ShutdownCircuitryRelay, false),
        BoardStep::Send(CanMessage::ShutdownCircuitryRelayOpen),
        BoardStep::Drive(Output::BatteryPrechargeRelay, false),
        BoardStep::Send(CanMessage::BatteryPrechargeRelayOpen),
        BoardStep::Drive(Output::MotorControllerRelay, false),
        BoardStep::Send(CanMessage::MotorControllerRelayOpen),
    ]
}

/// The steps that open the precharge relays.
pub fn open_precharge_relays() -> (r: Vec<BoardStep>)
    ensures
        r@ == open_precharge_relays_steps(),
{
    let mut r: Vec<BoardStep> = Vec::new();
    r.push(BoardStep::Drive(Output::ShutdownCircuitryRelay, false));
    r.push(BoardStep::Send(CanMessage::ShutdownCircuitryRelayOpen));
    r.push(BoardStep::Drive(Output::BatteryPrechargeRelay, false));
    r.push(BoardStep::Send(CanMessage::BatteryPrechargeRelayOpen));
    r.push(BoardStep::Drive(Output::MotorControllerRelay, false));
    r.push(BoardStep::Send(CanMessage::MotorControllerRelayOpen));
    assert(r@ =~= open_precharge_relays_steps());
    r
}

/// The high-power board's answer to a message. Precharge closes the
/// shutdown circuitry relay, lets it settle for ten seconds, closes the
/// battery precharge relay, lets it settle for three, then closes the motor
/// controller relay; discharge opens the shutdown circuitry relay and lets
/// it settle for thirty. An isolation command or an emergency opens all
/// three relays.
pub open spec fn high_power_answer(m: CanMessage) -> Seq<BoardStep> {
    match m {
        CanMessage::StartPrechargeCommand => seq![
            BoardStep::Send(CanMessage::PrechargeStarted),
            BoardStep::Drive(Output::ShutdownCircuitryRelay, true),
            BoardStep::Send(CanMessage::ShutdownCircuitryRelayClosed),
            BoardStep::WaitInterruptibly(10),
            BoardStep::Drive(Output::BatteryPrechargeRelay, true),
            BoardStep::Send(CanMessage::BatteryPrechargeRelayClosed),
            BoardStep::WaitInterruptibly(3),
            BoardStep::Send(CanMessage::PrechargeVoltageOK),
            BoardStep::Drive(Output::MotorControllerRelay, true),
            BoardStep::Send(CanMessage::MotorControllerRelayClosed),
            BoardStep::Send(CanMessage::PrechargeComplete),
        ],
        CanMessage::OpenPrechargeRelaysCommand => open_precharge_relays_steps(),
        CanMessage::StartDischargeCommand => seq![
            BoardStep::Send(CanMessage::DischargeStarted),
            BoardStep::Drive(Output::ShutdownCircuitryRelay, false),
            BoardStep::Send(CanMessage::ShutdownCircuitryRelayOpen),
            BoardStep::WaitInterruptibly(30),
            BoardStep::Send(CanMessage::DischargeVoltageOK),
            BoardStep::Send(CanMessage::DischargeComplete),
        ],
        CanMessage::Emergency(_, _) => open_precharge_relays_steps(),
        _ => Seq::empty(),
    }
}

/// The high-power board's answer to a message.
pub fn high_power_respond_to_message(message: &CanMessage) -> (r: Vec<BoardStep>)
    ensures
        r@ == high_power_answer(*message),
{
    let mut r: Vec<BoardStep> = Vec::new();
    match message {
        CanMessage::StartPrechargeCommand => {
            r.push(BoardStep::Send(CanMessage::PrechargeStarted));
            r.push(BoardStep::Drive(Output::ShutdownCircuitryRelay, true));
            r.push(BoardStep::Send(CanMessage::ShutdownCircuitryRelayClosed));
            r.push(BoardStep::WaitInterruptibly(10));
            r.push(BoardStep::Drive(Output::BatteryPrechargeRelay, true));
            r.push(BoardStep::Send(CanMessage::BatteryPrechargeRelayClosed));
            r.push(BoardStep::WaitInterruptibly(3));
            r.push(BoardStep::Send(CanMessage::PrechargeVoltageOK));
            r.push(BoardStep::Drive(Output::MotorControllerRelay, true));
            r.push(BoardStep::Send(CanMessage::MotorControllerRelayClosed));
            r.push(BoardStep::Send(CanMessage::PrechargeComplete));
        },
        CanMessage::OpenPrechargeRelaysCommand => {
            r = open_precharge_relays();
        },
        CanMessage::StartDischargeCommand => {
            r.push(BoardStep::Send(CanMessage::DischargeStarted));
            r.push(BoardStep::Drive(Output::ShutdownCircuitryRelay, false));
            r.push(BoardStep::Send(CanMessage::ShutdownCircuitryRelayOpen));
            r.push(BoardStep::WaitInterruptibly(30));
            r.push(BoardStep::Send(CanMessage::DischargeVoltageOK));
            r.push(BoardStep::Send(CanMessage::DischargeComplete));
        },
        CanMessage::Emergency(_, _) => {
            r = open_precharge_relays();
        },
        _ => {},
    }
    assert(r@ =~= high_power_answer(*message));
    r
}

/// Whether a message that arrives during a relay's settling time cuts the
/// sequence short; the relays are then opened.
pub fn interrupts_relay_wait(message: &CanMessage) -> (r: bool)
    ensures
        r == (*message is OpenPrechargeRelaysCommand || *message is Emergency),
{
    match message {
        CanMessage::OpenPrechargeRelaysCommand | CanMessage::Emergency(_, _) => true,
        _ => false,
    }
}

/// The high-power board reports every relay it moves, right after moving
/// it, and an emergency or an isolation command leaves all three relays
/// open, in the order shutdown circuitry, battery precharge, motor
/// controller.
pub proof fn lemma_high_power_reports_relays(m: CanMessage)
    ensures
        forall|i: int|
            #![trigger high_power_answer(m)[i]]
            0 <= i < high_power_answer(m).len() ==> (high_power_answer(m)[i] matches BoardStep::Drive(
                o,
                level,
            ) ==> i + 1 < high_power_answer(m).len() && relay_report(o, level) is Some
                && high_power_answer(m)[i + 1] == BoardStep::Send(relay_report(o, level)->0)),
        (m is Emergency || m is OpenPrechargeRelaysCommand) ==> high_power_answer(m)
            == open_precharge_relays_steps(),
{
}

/// Only a precharge closes a relay: in the high-power board's answer to any
/// other message every relay it drives is opened. A discharge opens the
/// shutdown circuitry relay before it reports the discharge voltage and its
/// completion.
pub proof fn lemma_only_precharge_closes_relays(m: CanMessage)
    ensures
        forall|i: int|
            #![trigger high_power_answer(m)[i]]
            0 <= i < high_power_answer(m).len() ==> (high_power_answer(m)[i] matches BoardStep::Drive(
                _,
                true,
            ) ==> m is StartPrechargeCommand),
        m is StartDischargeCommand ==> (exists|i: int|
            0 <= i < high_power_answer(m).len() && #[trigger] high_power_answer(m)[i]
                == BoardStep::Drive(Output::ShutdownCircuitryRelay, false) && forall|j: int|
                0 <= j < high_power_answer(m).len() && (high_power_answer(m)[j] == BoardStep::Send(
                    CanMessage::DischargeVoltageOK,
                ) || high_power_answer(m)[j] == BoardStep::Send(CanMessage::DischargeComplete))
                    ==> i < j),
{
    if m is StartDischargeCommand {
        let a = high_power_answer(m);
        assert(a[1] == BoardStep::Drive(Output::ShutdownCircuitryRelay, false));
    }
}

/// In `s`, some step `x` comes before every step `y`.
pub open spec fn comes_first(s: Seq<BoardStep>, x: BoardStep, y: BoardStep) -> bool {
    exists|i: int|
        0 <= i < s.len() && #[trigger] s[i] == x && forall|j: int|
            0 <= j < s.len() && s[j] == y ==> i < j
}

/// A precharge closes the relays in order and reports as it goes: it starts
/// by reporting that it started; the battery precharge relay is closed only
/// after the shutdown circuitry relay; the precharge voltage is reported
/// only after the battery precharge relay is closed, and before the motor
/// controller relay is closed; and the completion is reported last, after
/// the motor controller relay is closed. Both the high-power board and the
/// sensors board precharge so.
pub open spec fn precharges_in_order(a: Seq<BoardStep>) -> bool {
    &&& a.len() >= 2
    &&& a[0] == BoardStep::Send(CanMessage::PrechargeStarted)
    &&& a.last() == BoardStep::Send(CanMessage::PrechargeComplete)
    &&& comes_first(
        a,
        BoardStep::Drive(Output::ShutdownCircuitryRelay, true),
        BoardStep::Drive(Output::BatteryPrechargeRelay, true),
    )
    &&& comes_first(
        a,
        BoardStep::Drive(Output::BatteryPrechargeRelay, true),
        BoardStep::Send(CanMessage::PrechargeVoltageOK),
    )
    &&& comes_first(
        a,
        BoardStep::Send(CanMessage::PrechargeVoltageOK),
        BoardStep::Drive(Output::MotorControllerRelay, true),
    )
    &&& comes_first(
        a,
        BoardStep::Drive(Output::MotorControllerRelay, true),
        BoardStep::Send(CanMessage::PrechargeComplete),
    )
}

/// Whatever message the high-power or the sensors board answers, it closes
/// a relay only in a precharge, which only a precharge command starts and
/// which keeps that order.
pub proof fn lemma_precharge_order(m: CanMessage)
    ensures
        m is StartPrechargeCommand ==> precharges_in_order(high_power_answer(m)),
        m is StartPrechargeCommand ==> precharges_in_order(sensors_board_answer(m)),
        forall|i: int|
            #![trigger sensors_board_answer(m)[i]]
            0 <= i < sensors_board_answer(m).len() ==> ((sensors_board_answer(m)[i] matches BoardStep::Drive(
                o,
                true,
            ) && o != Output::Gpio4) ==> m is StartPrechargeCommand),
        forall|i: int|
            #![trigger sensors_board_answer(m)[i]]
            0 <= i < sensors_board_answer(m).len() && sensors_board_answer(m)[i] is Send && ({
                let r = sensors_board_answer(m)[i]->Send_0;
                r is ShutdownCircuitryRelayClosed || r is BatteryPrechargeRelayClosed
                    || r is MotorControllerRelayClosed
            }) ==> i >= 1 && sensors_board_answer(m)[i - 1] is Drive && sensors_board_answer(
                m,
            )[i - 1]->Drive_1 && relay_report(sensors_board_answer(m)[i - 1]->Drive_0, true) == Some(
                sensors_board_answer(m)[i]->Send_0,
            ),
{
    let a = high_power_answer(CanMessage::StartPrechargeCommand);
    assert(a[1] == BoardStep::Drive(Output::ShutdownCircuitryRelay, true));
    assert(a[4] == BoardStep::Drive(Output::BatteryPrechargeRelay, true));
    assert(a[7] == BoardStep::Send(CanMessage::PrechargeVoltageOK));
    assert(a[8] == BoardStep::Drive(Output::MotorControllerRelay, true));
    let b = sensors_board_answer(CanMessage::StartPrechargeCommand);
    assert(b[1] == BoardStep::Drive(Output::ShutdownCircuitryRelay, true));
    assert(b[7] == BoardStep::Drive(Output::BatteryPrechargeRelay, true));
    assert(b[10] == BoardStep::Send(CanMessage::PrechargeVoltageOK));
    assert(b[13] == BoardStep::Drive(Output::MotorControllerRelay, true));
}

/// The high-power board working through its answer to a message, one step
/// at a time. A message that interrupts a settling wait ends the answer
/// there, and the relays are opened instead of what was left.
pub struct HighPowerRun {
    /// The message being answered.
    pub message: CanMessage,
    /// The answer's steps.
    pub steps: Vec<BoardStep>,
    /// How many steps were handed out.
    pub position: usize,
    /// No step is left to hand out.
    pub finished: bool,
    /// A message during a wait cut the answer short.
    pub interrupted: bool,
}

impl HighPowerRun {
    /// The steps are the answer to the message, the position lies within
    /// them, and an interruption ended the run right after a settling wait.
    pub open spec fn wf(&self) -> bool {
        &&& self.steps@ == high_power_answer(self.message)
        &&& self.position <= self.steps@.len()
        &&& !self.finished ==> !self.interrupted
        &&& self.interrupted ==> self.position >= 1 && self.steps@[self.position - 1] is WaitInterruptibly
    }

    /// Whether the last step handed out is a settling wait that a message
    /// can still interrupt.
    pub open spec fn waiting(&self) -> bool {
        &&& !self.finished
        &&& self.position >= 1
        &&& self.steps@[self.position - 1] is WaitInterruptibly
    }

    /// What the board did so far: the steps handed out, then, after an
    /// interruption, the opening of the relays.
    pub open spec fn performed(&self) -> Seq<BoardStep> {
        self.steps@.take(self.position as int) + if self.interrupted {
            open_precharge_relays_steps()
        } else {
            Seq::empty()
        }
    }

    /// Starts answering a message; nothing is done yet.
    pub fn start(message: &CanMessage) -> (r: Self)
        ensures
            r.wf(),
            r.message == *message,
            r.position == 0,
            !r.finished,
            !r.interrupted,
    {
        HighPowerRun {
            message: *message,
            steps: high_power_respond_to_message(message),
            position: 0,
            finished: false,
            interrupted: false,
        }
    }

    /// The next step of the answer, or `None` once the answer is over,
    /// whether it ran to its end or was interrupted.
    pub fn next_step(&mut self) -> (r: Option<BoardStep>)
        requires
            old(self).wf(),
        ensures
            final(self).wf(),
            final(self).message == old(self).message,
            final(self).interrupted == old(self).interrupted,
            old(self).finished || old(self).position == old(self).steps@.len() ==> r is None
                && final(self).finished && final(self).position == old(self).position,
            !old(self).finished && old(self).position < old(self).steps@.len() ==> r == Some(
                old(self).steps@[old(self).position as int],
            ) && !final(self).finished && final(self).position == old(self).position + 1,
    {
        if self.finished || self.position == self.steps.len() {
            self.finished = true;
            return None;
        }
        let step = self.steps[self.position];
        self.position = self.position + 1;
        Some(step)
    }

    /// A message that arrived during the settling wait just handed out. An
    /// isolation command or an emergency ends the answer: the run is over
    /// and the steps that open the relays are returned. Any other message,
    /// or one that comes when no wait is on, changes nothing.
    pub fn message_during_wait(&mut self, message: &CanMessage) -> (r: Option<Vec<BoardStep>>)
        requires
            old(self).wf(),
        ensures
            final(self).wf(),
            final(self).message == old(self).message,
            final(self).position == old(self).position,
            old(self).waiting() && (*message is OpenPrechargeRelaysCommand
                || *message is Emergency) ==> (r matches Some(v) && v@
                == open_precharge_relays_steps()) && final(self).finished
                && final(self).interrupted,
            !(old(self).waiting() && (*message is OpenPrechargeRelaysCommand
                || *message is Emergency)) ==> r is None && final(self).finished
                == old(self).finished && final(self).interrupted == old(self).interrupted,
    {
        let waiting = !self.finished && self.position >= 1 && match self.steps[self.position - 1] {
            BoardStep::WaitInterruptibly(_) => true,
            _ => false,
        };
        if waiting && interrupts_relay_wait(message) {
            self.finished = true;
            self.interrupted = true;
            Some(open_precharge_relays())
        } else {
            None
        }
    }
}

/// A precharge cut short by an isolation command or an emergency during a
/// settling wait never reports the precharge voltage or its completion and
/// never closes the motor controller relay; it ends by opening the three
/// relays, shutdown circuitry first, then battery precharge, then motor
/// controller.
pub proof fn lemma_interrupted_precharge(run: HighPowerRun)
    requires
        run.wf(),
        run.message is StartPrechargeCommand,
        run.interrupted,
    ensures
        !run.performed().contains(BoardStep::Send(CanMessage::PrechargeVoltageOK)),
        !run.performed().contains(BoardStep::Send(CanMessage::PrechargeComplete)),
        !run.performed().contains(BoardStep::Drive(Output::MotorControllerRelay, true)),
        run.performed().subrange(run.performed().len() - 6, run.performed().len() as int)
            == open_precharge_relays_steps(),
{
    let steps = run.steps@;
    let p = run.position as int;
    assert(p == 4 || p == 7) by {
        assert(steps[3] is WaitInterruptibly);
        assert(steps[6] is WaitInterruptibly);
    }
    let done = run.performed();
    let head = steps.take(p);
    assert(done =~= head + open_precharge_relays_steps());
    assert forall|i: int| 0 <= i < done.len() implies done[i] != BoardStep::Send(
        CanMessage::PrechargeVoltageOK,
    ) && done[i] != BoardStep::Send(CanMessage::PrechargeComplete) && done[i] != BoardStep::Drive(
        Output::MotorControllerRelay,
        true,
    ) by {
        if i < p {
            assert(done[i] == steps[i]);
        } else {
            assert(done[i] == open_precharge_relays_steps()[i - p]);
        }
    }
    assert(done.subrange(done.len() - 6, done.len() as int) =~= open_precharge_relays_steps());
}

/// A run that is not interrupted hands out the whole answer, in order.
pub proof fn lemma_uninterrupted_run(run: HighPowerRun)
    requires
        run.wf(),
        run.finished,
        !run.interrupted,
        run.position == run.steps@.len(),
    ensures
        run.performed() == high_power_answer(run.message),
{
    assert(run.performed() =~= high_power_answer(run.message));
}

/// The sensors board's answer to a message. Its precharge sequence drives
/// the relays through the fourth output: it closes the shutdown circuitry
/// relay, pulses the battery precharge relay low for four seconds while the
/// fourth output is high, then after two seconds pulses the motor controller
/// relay low for four.
pub open spec fn sensors_board_answer(m: CanMessage) -> Seq<BoardStep> {
    match m {
        CanMessage::StartPrechargeCommand => seq![
            BoardStep::Send(CanMessage::PrechargeStarted),
            BoardStep::Drive(Output::ShutdownCircuitryRelay, true),
            BoardStep::Send(CanMessage::ShutdownCircuitryRelayClosed),
            BoardStep::Drive(Output::Gpio4, true),
            BoardStep::Drive(Output::BatteryPrechargeRelay, false),
            BoardStep::Wait(4),
            BoardStep::Drive(Output::Gpio4, false),
            BoardStep::Drive(Output::BatteryPrechargeRelay, true),
            BoardStep::Send(CanMessage::BatteryPrechargeRelayClosed),
            BoardStep::Wait(2),
            BoardStep::Send(CanMessage::PrechargeVoltageOK),
            BoardStep::Drive(Output::MotorControllerRelay, false),
            BoardStep::Wait(4),
            BoardStep::Drive(Output::MotorControllerRelay, true),
            BoardStep::Send(CanMessage::MotorControllerRelayClosed),
            BoardStep::Send(CanMessage::PrechargeComplete),
        ],
        CanMessage::UnclampBrakesCommand => seq![
            BoardStep::Send(CanMessage::BrakesUnclamped { from: Board::Sensors2 }),
        ],
        _ => Seq::empty(),
    }
}

/// The sensors board's answer to a message.
pub fn sensors_board_respond_to_message(message: &CanMessage) -> (r: Vec<BoardStep>)
    ensures
        r@ == sensors_board_answer(*message),
{
    let mut r: Vec<BoardStep> = Vec::new();
    match message {
        CanMessage::StartPrechargeCommand => {
            r.push(BoardStep::Send(CanMessage::PrechargeStarted));
            r.push(BoardStep::Drive(Output::ShutdownCircuitryRelay, true));
            r.push(BoardStep::Send(CanMessage::ShutdownCircuitryRelayClosed));
            r.push(BoardStep::Drive(Output::Gpio4, true));
            r.push(BoardStep::Drive(Output::BatteryPrechargeRelay, false));
            r.push(BoardStep::Wait(4));
            r.push(BoardStep::Drive(Output::Gpio4, false));
            r.push(BoardStep::Drive(Output::BatteryPrechargeRelay, true));
            r.push(BoardStep::Send(CanMessage::BatteryPrechargeRelayClosed));
            r.push(BoardStep::Wait(2));
            r.push(BoardStep::Send(CanMessage::PrechargeVoltageOK));
            r.push(BoardStep::Drive(Output::MotorControllerRelay, false));
            r.push(BoardStep::Wait(4));
            r.push(BoardStep::Drive(Output::MotorControllerRelay, true));
            r.push(BoardStep::Send(CanMessage::MotorControllerRelayClosed));
            r.push(BoardStep::Send(CanMessage::PrechargeComplete));
        },
        CanMessage::UnclampBrakesCommand => {
            r.push(BoardStep::Send(CanMessage::BrakesUnclamped { from: Board::Sensors2 }));
        },
        _ => {},
    }
    assert(r@ =~= sensors_board_answer(*message));
    r
}

/// The LED board's answer to an event on its bus: it lights its LED for the
/// ten seconds of a precharge.
pub open spec fn led_board_answer(e: Event) -> Seq<BoardStep> {
    match e {
        Event::StartPrechargeCommand => seq![
            BoardStep::Publish(Event::PrechargeStarted),
            BoardStep::Drive(Output::Led, true),
            BoardStep::Wait(10),
            BoardStep::Drive(Output::Led, false),
            BoardStep::Publish(Event::PrechargeComplete),
        ],
        _ => Seq::empty(),
    }
}

/// The LED board answers only a precharge command: it publishes that the
/// precharge started, lights its LED, keeps it lit through a wait, puts it
/// out, and then publishes the completion; the LED is lit before it is put
/// out, and it drives no other output.
pub proof fn lemma_led_lit_through_precharge(e: Event)
    ensures
        led_board_answer(e).len() > 0 ==> e is StartPrechargeCommand,
        e is StartPrechargeCommand ==> {
            let a = led_board_answer(e);
            &&& a.len() >= 2
            &&& a[0] == BoardStep::Publish(Event::PrechargeStarted)
            &&& a.last() == BoardStep::Publish(Event::PrechargeComplete)
            &&& comes_first(a, BoardStep::Drive(Output::Led, true), BoardStep::Drive(Output::Led, false))
            &&& comes_first(a, BoardStep::Drive(Output::Led, false), BoardStep::Publish(Event::PrechargeComplete))
            &&& a.contains(BoardStep::Drive(Output::Led, false))
        },
        forall|i: int|
            0 <= i < led_board_answer(e).len() ==> (#[trigger] led_board_answer(e)[i] matches BoardStep::Drive(
                o,
                _,
            ) ==> o == Output::Led),
{
    if e is StartPrechargeCommand {
        let a = led_board_answer(e);
        assert(a[1] == BoardStep::Drive(Output::Led, true));
        assert(a[3] == BoardStep::Drive(Output::Led, false));
    }
}

/// The LED board's answer to an event on its bus.
pub fn led_board_respond_to_event(event: &Event) -> (r: Vec<BoardStep>)
    ensures
        r@ == led_board_answer(*event),
{
    let mut r: Vec<BoardStep> = Vec::new();
    match event {
        Event::StartPrechargeCommand => {
            r.push(BoardStep::Publish(Event::PrechargeStarted));
            r.push(BoardStep::Drive(Output::Led, true));
            r.push(BoardStep::Wait(10));
            r.push(BoardStep::Drive(Output::Led, false));
            r.push(BoardStep::Publish(Event::PrechargeComplete));
        },
        _ => {},
    }
    assert(r@ =~= led_board_answer(*event));
    r
}


/// Whether the pressures are safe: the high pressure sensor in its low
/// range and no low pressure sensor critical.
pub fn pressures_safe(high_pressure_in_low_range: bool, low_pressure_critical: &[bool]) -> (r:
    bool)
    ensures
        r == (high_pressure_in_low_range && forall|i: int|
            0 <= i < low_pressure_critical@.len() ==> !low_pressure_critical@[i]),
{
    if !high_pressure_in_low_range {
        return false;
    }
    let n = low_pressure_critical.len();
    let mut i: usize = 0;
    while i < n
        invariant
            n == low_pressure_critical@.len(),
            i <= n,
            forall|j: int| 0 <= j < i ==> !low_pressure_critical@[j],
        decreases n - i,
    {
        if low_pressure_critical[i] {
            return false;
        }
        i = i + 1;
    }
    true
}

/// The emergency a sensors board raises for an unsafe pressure.
pub fn pressure_emergency() -> (m: CanMessage)
    ensures
        m == CanMessage::Emergency(Board::Sensors2, Reason::Pressure),
{
    CanMessage::Emergency(Board::Sensors2, Reason::Pressure)
}

/// The HVAL lights as last reported.
#[derive(Clone, Copy, PartialEq, Eq, Structural, Debug)]
pub struct HvalReport {
    pub red: Option<bool>,
    pub green: Option<bool>,
}

/// The messages that report the lights read now, for each light that
/// changed since the last report (or was never reported), red first; and
/// the new report.
pub fn hval_changes(previous: &HvalReport, red: bool, green: bool) -> (r: (
    Vec<CanMessage>,
    HvalReport,
))
    ensures
        r.1 == (HvalReport { red: Some(red), green: Some(green) }),
        r.0@ == (if previous.red != Some(red) {
            seq![CanMessage::HvalRedStatus(red)]
        } else {
            Seq::empty()
        }) + (if previous.green != Some(green) {
            seq![CanMessage::HvalGreenStatus(green)]
        } else {
            Seq::empty()
        }),
{
    let mut out: Vec<CanMessage> = Vec::new();
    let red_changed = match previous.red {
        Some(b) => b != red,
        None => true,
    };
    let green_changed = match previous.green {
        Some(b) => b != green,
        None => true,
    };
    if red_changed {
        out.push(CanMessage::HvalRedStatus(red));
    }
    if green_changed {
        out.push(CanMessage::HvalGreenStatus(green));
    }
    assert(out@ =~= (if previous.red != Some(red) {
        seq![CanMessage::HvalRedStatus(red)]
    } else {
        Seq::empty()
    }) + (if previous.green != Some(green) {
        seq![CanMessage::HvalGreenStatus(green)]
    } else {
        Seq::empty()
    }));
    (out, HvalReport { red: Some(red), green: Some(green) })
}

/// The reading the telemetry board reports for an IMD frame that is fine.
pub fn imd_reading(corrected: u16) -> (m: CanMessage)
    ensures
        m == CanMessage::MeasurementReading(
            MeasurementReading {
                reading: CanData::U16(corrected),
                board: Board::Telemetry,
                measurement_id: MeasurementId::ImdIsoCorrected,
            },
        ),
{
    CanMessage::MeasurementReading(
        MeasurementReading {
            reading: CanData::U16(corrected),
            board: Board::Telemetry,
            measurement_id: MeasurementId::ImdIsoCorrected,
        },
    )
}

/// The emergency the telemetry board raises when the IMD goes silent or
/// reports a fault.
pub fn imd_emergency() -> (m: CanMessage)
    ensures
        m == CanMessage::Emergency(Board::Telemetry, Reason::IMD),
{
    CanMessage::Emergency(Board::Telemetry, Reason::IMD)
}

/// The navigation simulator: armed by an acceleration command to brake a
/// while later, disarmed by a braking or end-of-track command. Each arming
/// or disarming starts a new generation, so that a brake timer from before
/// it does nothing.
#[derive(Clone, Copy, PartialEq, Eq, Structural, Debug)]
pub struct NavSimulator {
    pub armed: bool,
    pub generation: u32,
}

/// What the navigation simulator starts for an event.
#[derive(Clone, Copy, PartialEq, Eq, Structural, Debug)]
pub enum NavSimulatorAction {
    /// Start a brake timer for this generation.
    StartBrakeTimer(u32),
    /// Report, after a while, that the pod stopped.
    ReportStopped,
    Nothing,
}

/// The seconds between an acceleration command and the simulated brake.
pub const BRAKE_DELAY_S: u64 = 2;

/// The generation after the given one: one more, wrapping to zero past the
/// largest `u32`.
pub open spec fn next_generation(g: u32) -> u32 {
    if g == u32::MAX {
        0
    } else {
        (g + 1) as u32
    }
}

fn advance_generation(g: u32) -> (r: u32)
    ensures
        r == next_generation(g),
{
    if g == u32::MAX {
        0
    } else {
        g + 1
    }
}

/// The navigation simulator's state after an event, and what it starts.
pub open spec fn nav_simulator_transition(s: NavSimulator, e: Event) -> (
    NavSimulator,
    NavSimulatorAction,
) {
    match e {
        Event::StartPropulsionAccelerationCommand => {
            let g = next_generation(s.generation);
            (NavSimulator { armed: true, generation: g }, NavSimulatorAction::StartBrakeTimer(g))
        },
        Event::StartPropulsionBrakingCommand | Event::EndOfTrackBrakeCommand => (
            NavSimulator { armed: false, generation: next_generation(s.generation) },
            NavSimulatorAction::ReportStopped,
        ),
        _ => (s, NavSimulatorAction::Nothing),
    }
}

impl NavSimulator {
    /// Disarmed, at generation 0.
    pub fn new() -> (s: Self)
        ensures
            s == (NavSimulator { armed: false, generation: 0 }),
    {
        NavSimulator { armed: false, generation: 0 }
    }

    /// Handles an event on the simulator's bus.
    pub fn handle(&mut self, event: &Event) -> (a: NavSimulatorAction)
        ensures
            (*final(self), a) == nav_simulator_transition(*old(self), *event),
    {
        match event {
            Event::StartPropulsionAccelerationCommand => {
                self.generation = advance_generation(self.generation);
                self.armed = true;
                NavSimulatorAction::StartBrakeTimer(self.generation)
            },
            Event::StartPropulsionBrakingCommand | Event::EndOfTrackBrakeCommand => {
                self.armed = false;
                self.generation = advance_generation(self.generation);
                NavSimulatorAction::ReportStopped
            },
            _ => NavSimulatorAction::Nothing,
        }
    }

    /// When the brake timer of a generation expires: returns whether to send
    /// the end-of-track brake, which it does only while still armed in that
    /// same generation, and then disarms.
    pub fn brake_timer_expired(&mut self, generation: u32) -> (send_brake: bool)
        ensures
            send_brake == (old(self).armed && old(self).generation == generation),
            send_brake ==> *final(self) == (NavSimulator { armed: false, ..*old(self) }),
            !send_brake ==> *final(self) == *old(self),
    {
        if self.armed && self.generation == generation {
            self.armed = false;
            true
        } else {
            false
        }
    }
}

/// A brake timer started before another acceleration, braking or
/// end-of-track command never brakes: those commands start a new
/// generation.
pub proof fn lemma_stale_brake_timer_is_void(s: NavSimulator, e: Event)
    requires
        e is StartPropulsionAccelerationCommand || e is StartPropulsionBrakingCommand
            || e is EndOfTrackBrakeCommand,
    ensures
        nav_simulator_transition(s, e).0.generation != s.generation,
{
}

/// The events that start a new generation of the navigation simulator.
pub open spec fn resets_generation(e: Event) -> bool {
    e is StartPropulsionAccelerationCommand || e is StartPropulsionBrakingCommand
        || e is EndOfTrackBrakeCommand
}

/// The navigation simulator after a run of events.
pub open spec fn nav_simulator_run(s: NavSimulator, es: Seq<Event>) -> NavSimulator
    decreases es.len(),
{
    if es.len() == 0 {
        s
    } else {
        nav_simulator_run(nav_simulator_transition(s, es[0]).0, es.drop_first())
    }
}

/// How many events of a run start a new generation.
pub open spec fn resets_in(es: Seq<Event>) -> nat
    decreases es.len(),
{
    if es.len() == 0 {
        0
    } else {
        (if resets_generation(es[0]) {
            1nat
        } else {
            0nat
        }) + resets_in(es.drop_first())
    }
}

/// A run moves the generation on by the number of its resetting events,
/// modulo 2^32; a run without one changes nothing, and one never
/// has more of them than events.
proof fn lemma_nav_run_generation(s: NavSimulator, es: Seq<Event>)
    ensures
        nav_simulator_run(s, es).generation == (s.generation + resets_in(es)) % 0x1_0000_0000,
        resets_in(es) == 0 ==> nav_simulator_run(s, es) == s,
        resets_in(es) <= es.len(),
        resets_in(es) == 0 <==> forall|i: int| 0 <= i < es.len() ==> !resets_generation(es[i]),
    decreases es.len(),
{
    let m: int = 0x1_0000_0000;
    if es.len() == 0 {
        vstd::arithmetic::div_mod::lemma_small_mod(s.generation as nat, m as nat);
    } else {
        let s1 = nav_simulator_transition(s, es[0]).0;
        let rest = es.drop_first();
        lemma_nav_run_generation(s1, rest);
        let r0: int = if resets_generation(es[0]) { 1 } else { 0 };
        assert(s1.generation == (s.generation + r0) % m) by {
            if r0 == 1 {
                if s.generation == u32::MAX {
                    vstd::arithmetic::div_mod::lemma_mod_self_0(m);
                } else {
                    vstd::arithmetic::div_mod::lemma_small_mod((s.generation + 1) as nat, m as nat);
                }
            } else {
                vstd::arithmetic::div_mod::lemma_small_mod(s.generation as nat, m as nat);
            }
        }
        vstd::arithmetic::div_mod::lemma_add_mod_noop_right(
            resets_in(rest) as int,
            s.generation + r0,
            m,
        );
        assert(s.generation + r0 + resets_in(rest) == s.generation + resets_in(es));
        if resets_in(es) == 0 {
            assert(s1 == s);
        }
        if forall|i: int| 0 <= i < es.len() ==> !resets_generation(es[i]) {
            assert forall|i: int| 0 <= i < rest.len() implies !resets_generation(rest[i]) by {
                assert(rest[i] == es[i + 1]);
            }
        }
        if resets_in(es) == 0 {
            assert forall|i: int| 0 <= i < es.len() implies !resets_generation(es[i]) by {
                if i > 0 {
                    assert(es[i] == rest[i - 1]);
                }
            }
        }
    }
}

/// The brake timer that an acceleration command starts brakes when it
/// expires exactly when no acceleration, braking or end-of-track command
/// came in between; so the end-of-track brake is sent at most once per
/// arming, and a later command cancels it. The run in between is shorter
/// than 2^32 - 1 events, so that the generation cannot wrap round to the
/// timer's own.
pub proof fn lemma_brake_timer_fires_iff_undisturbed(s: NavSimulator, es: Seq<Event>)
    requires
        es.len() < u32::MAX,
    ensures
        nav_simulator_transition(s, Event::StartPropulsionAccelerationCommand).1
            == NavSimulatorAction::StartBrakeTimer(next_generation(s.generation)),
        ({
            let armed = nav_simulator_transition(s, Event::StartPropulsionAccelerationCommand).0;
            let later = nav_simulator_run(armed, es);
            (later.armed && later.generation == next_generation(s.generation)) <==> (forall|i: int|
                0 <= i < es.len() ==> !resets_generation(es[i]))
        }),
{
    let armed = nav_simulator_transition(s, Event::StartPropulsionAccelerationCommand).0;
    lemma_nav_run_generation(armed, es);
    let g: int = armed.generation as int;
    let k: int = resets_in(es) as int;
    if k > 0 {
        assert((g + k) % 0x1_0000_0000 != g) by (nonlinear_arith)
            requires
                0 <= g < 0x1_0000_0000,
                1 <= k < 0x1_0000_0000,
        ;
    }
}

/// The localisation board's end-of-track brake: armed by an acceleration
/// command, disarmed by a braking or end-of-track command, and sent at most
/// once per arming, when the pod is past half the track.
#[derive(Clone, Copy, PartialEq, Eq, Structural, Debug)]
pub struct EndOfTrackLatch {
    pub armed: bool,
    pub brake_sent: bool,
}

impl EndOfTrackLatch {
    /// Disarmed.
    pub fn new() -> (l: Self)
        ensures
            l == (EndOfTrackLatch { armed: false, brake_sent: false }),
    {
        EndOfTrackLatch { armed: false, brake_sent: false }
    }

    /// Handles a command on the board's bus; returns whether to report, a
    /// while later, that the pod stopped.
    pub fn handle(&mut self, event: &Event) -> (report_stopped: bool)
        ensures
            *event is StartPropulsionAccelerationCommand ==> *final(self) == (EndOfTrackLatch {
                armed: true,
                brake_sent: false,
            }) && !report_stopped,
            (*event is StartPropulsionBrakingCommand || *event is EndOfTrackBrakeCommand) ==> (
            *final(self) == (EndOfTrackLatch { armed: false, ..*old(self) }) && report_stopped),
            !(*event is StartPropulsionAccelerationCommand || *event is StartPropulsionBrakingCommand
                || *event is EndOfTrackBrakeCommand) ==> *final(self) == *old(self)
                && !report_stopped,
    {
        match event {
            Event::StartPropulsionAccelerationCommand => {
                self.brake_sent = false;
                self.armed = true;
                false
            },
            Event::StartPropulsionBrakingCommand | Event::EndOfTrackBrakeCommand => {
                self.armed = false;
                true
            },
            _ => false,
        }
    }

    /// After a localisation step: returns whether to send the end-of-track
    /// brake, given whether the pod is past half the track.
    pub fn should_brake(&mut self, past_halfway: bool) -> (send: bool)
        ensures
            (*final(self), send) == end_of_track_step(*old(self), past_halfway),
    {
        if self.armed && past_halfway {
            let already = self.brake_sent;
            self.brake_sent = true;
            !already
        } else {
            false
        }
    }
}

/// The latch after a localisation step, and whether the step sends the
/// end-of-track brake: it does when armed, past half the track, and not
/// sent yet since the arming.
pub open spec fn end_of_track_step(l: EndOfTrackLatch, past_halfway: bool) -> (EndOfTrackLatch, bool) {
    if l.armed && past_halfway {
        (EndOfTrackLatch { brake_sent: true, ..l }, !l.brake_sent)
    } else {
        (l, false)
    }
}

/// The latch after a run of localisation steps, and how many of them sent
/// the end-of-track brake.
pub open spec fn end_of_track_run(l: EndOfTrackLatch, past: Seq<bool>) -> (EndOfTrackLatch, nat)
    decreases past.len(),
{
    if past.len() == 0 {
        (l, 0)
    } else {
        let (l1, sent) = end_of_track_step(l, past[0]);
        let (last, n) = end_of_track_run(l1, past.drop_first());
        (last, n + if sent {
            1nat
        } else {
            0nat
        })
    }
}

/// Once the end-of-track brake is sent, no later localisation step sends it
/// again until an acceleration command re-arms the latch; and from any
/// state a run of steps sends it at most once.
pub proof fn lemma_end_of_track_brake_once(l: EndOfTrackLatch, past: Seq<bool>)
    ensures
        l.brake_sent ==> end_of_track_run(l, past).1 == 0 && end_of_track_run(l, past).0.brake_sent,
        end_of_track_run(l, past).1 <= 1,
    decreases past.len(),
{
    if past.len() > 0 {
        let (l1, sent) = end_of_track_step(l, past[0]);
        lemma_end_of_track_brake_once(l1, past.drop_first());
        if sent {
            assert(l1.brake_sent);
        }
    }
}

/// The boards whose heartbeats the telemetry board watches, in order.
pub open spec fn heartbeat_boards() -> Seq<Board> {
    seq![Board::MotorControl, Board::Sensors1, Board::Sensors2, Board::Navigation]
}

/// The number of watched boards.
pub const HEARTBEAT_BOARD_COUNT: usize = 4;

/// The index of a watched board, or `None` for a board not watched.
pub fn heartbeat_board_index(board: Board) -> (r: Option<usize>)
    ensures
        r matches Some(i) ==> i < HEARTBEAT_BOARD_COUNT && heartbeat_boards()[i as int] == board,
        r is None ==> !heartbeat_boards().contains(board),
{
    match board {
        Board::MotorControl => Some(0),
        Board::Sensors1 => Some(1),
        Board::Sensors2 => Some(2),
        Board::Navigation => Some(3),
        _ => {
            assert(!heartbeat_boards().contains(board)) by {
                if heartbeat_boards().contains(board) {
                    let i = choose|i: int| 0 <= i < 4 && heartbeat_boards()[i] == board;
                    assert(heartbeat_boards()[i] == board);
                }
            }
            None
        },
    }
}

/// The telemetry board's watch over the heartbeats: which boards have been
/// heard from, and when each was last heard, in milliseconds.
#[derive(Clone, Copy, PartialEq, Eq, Debug)]
pub struct HeartbeatMonitor {
    pub seen: [bool; HEARTBEAT_BOARD_COUNT],
    pub last_seen_ms: [u64; HEARTBEAT_BOARD_COUNT],
}

impl HeartbeatMonitor {
    /// No board heard from; every board counted as last heard at `now_ms`.
    pub fn new(now_ms: u64) -> (m: Self)
        ensures
            forall|i: int| 0 <= i < HEARTBEAT_BOARD_COUNT ==> !m.seen@[i] && m.last_seen_ms@[i]
                == now_ms,
    {
        HeartbeatMonitor { seen: [false; HEARTBEAT_BOARD_COUNT], last_seen_ms: [now_ms; HEARTBEAT_BOARD_COUNT] }
    }

    /// Records a heartbeat received at `now_ms`. Only heartbeats addressed to
    /// the telemetry board from a watched board count.
    pub fn record(&mut self, heartbeat: &Heartbeat, now_ms: u64)
        ensures
            forall|i: int|
                #![trigger final(self).seen@[i]]
                #![trigger final(self).last_seen_ms@[i]]
                0 <= i < HEARTBEAT_BOARD_COUNT ==> {
                    let hit = heartbeat.to == Board::Telemetry && heartbeat_boards()[i]
                        == heartbeat.from;
                    &&& final(self).seen@[i] == (old(self).seen@[i] || hit)
                    &&& final(self).last_seen_ms@[i] == (if hit {
                        now_ms
                    } else {
                        old(self).last_seen_ms@[i]
                    })
                },
    {
        if heartbeat.to != Board::Telemetry {
            return;
        }
        match heartbeat_board_index(heartbeat.from) {
            Some(i) => {
                self.seen[i] = true;
                self.last_seen_ms[i] = now_ms;
                proof {
                    assert forall|j: int| 0 <= j < HEARTBEAT_BOARD_COUNT && j != i implies heartbeat_boards()[j] != heartbeat.from by {
                        assert(heartbeat_boards()[i as int] == heartbeat.from);
                    }
                }
            },
            None => {
                proof {
                    assert forall|j: int| 0 <= j < HEARTBEAT_BOARD_COUNT implies heartbeat_boards()[j] != heartbeat.from by {
                        if heartbeat_boards()[j] == heartbeat.from {
                            assert(heartbeat_boards().contains(heartbeat.from));
                        }
                    }
                }
            },
        }
    }

    /// Whether every watched board has been heard from.
    pub fn all_seen(&self) -> (r: bool)
        ensures
            r == (forall|i: int| 0 <= i < HEARTBEAT_BOARD_COUNT ==> self.seen@[i]),
    {
        let mut i: usize = 0;
        while i < HEARTBEAT_BOARD_COUNT
            invariant
                i <= HEARTBEAT_BOARD_COUNT,
                forall|j: int| 0 <= j < i ==> self.seen@[j],
            decreases HEARTBEAT_BOARD_COUNT - i,
        {
            if !self.seen[i] {
                return false;
            }
            i = i + 1;
        }
        true
    }

    /// The first watched board not heard from for more than `max_latency_ms`
    /// at `now_ms`, if any.
    pub fn first_silent_board(&self, now_ms: u64, max_latency_ms: u64) -> (r: Option<Board>)
        requires
            forall|i: int| 0 <= i < HEARTBEAT_BOARD_COUNT ==> self.last_seen_ms@[i] <= now_ms,
        ensures
            r matches Some(b) ==> exists|i: int|
                0 <= i < HEARTBEAT_BOARD_COUNT && heartbeat_boards()[i] == b && now_ms
                    - self.last_seen_ms@[i] > max_latency_ms && forall|j: int|
                    0 <= j < i ==> now_ms - self.last_seen_ms@[j] <= max_latency_ms,
            r is None ==> forall|i: int|
                0 <= i < HEARTBEAT_BOARD_COUNT ==> now_ms - self.last_seen_ms@[i] <= max_latency_ms,
    {
        let boards = [Board::MotorControl, Board::Sensors1, Board::Sensors2, Board::Navigation];
        assert(boards@ =~= heartbeat_boards());
        let mut i: usize = 0;
        while i < HEARTBEAT_BOARD_COUNT
            invariant
                i <= HEARTBEAT_BOARD_COUNT,
                boards@ == heartbeat_boards(),
                forall|j: int| 0 <= j < HEARTBEAT_BOARD_COUNT ==> self.last_seen_ms@[j] <= now_ms,
                forall|j: int| 0 <= j < i ==> now_ms - self.last_seen_ms@[j] <= max_latency_ms,
            decreases HEARTBEAT_BOARD_COUNT - i,
        {
            if now_ms - self.last_seen_ms[i] > max_latency_ms {
                return Some(boards[i]);
            }
            i = i + 1;
        }
        None
    }
}

/// The emergency the telemetry board raises when a board was never heard
/// from at startup.
pub fn no_initial_heartbeat_emergency() -> (m: CanMessage)
    ensures
        m == CanMessage::Emergency(Board::Telemetry, Reason::NoInitialHeartbeat),
{
    CanMessage::Emergency(Board::Telemetry, Reason::NoInitialHeartbeat)
}

/// The emergency the telemetry board raises when a board falls silent.
pub fn missing_heartbeat_emergency() -> (m: CanMessage)
    ensures
        m == CanMessage::Emergency(Board::Telemetry, Reason::MissingHeartbeat),
{
    CanMessage::Emergency(Board::Telemetry, Reason::MissingHeartbeat)
}

} // verus!
