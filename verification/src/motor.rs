//! The motor controller board: the CANopen messages it sends the motor
//! controller, its command and event state machines, and the frames of the
//! motor bus.
use crate::messages::{Board, CanMessage, Event, Reason};
use vstd::bytes::{spec_u16_from_le_bytes, spec_u32_from_le_bytes, u16_from_le_bytes, u32_from_le_bytes};
use vstd::prelude::*;

verus! {

/// A message for the motor controller: the CANopen SDO writes and NMT
/// state changes that the boards send it.
#[derive(Clone, Copy, PartialEq, Eq, Structural, Debug)]
pub enum MotorMessage {
    StartDrive,
    Shutdown,
    QuickStop,
    SwitchOn,
    SetFrequency(u32),
    TestModeCommand(u32),
    ModesOfOperation,
    SensorType,
    UndervoltageLimit,
    TestStepperFrequency,
    TestStepperEnable,
    SetMaxCurrent,
    SecondaryCurrentProtection,
    MotorRatedCurrent,
    OvervoltageLimit,
    EnterStopState,
    EnterPreoperationalState,
    EnterOperationalState,
}

/// The CANopen node of the motor controller.
pub const NODE_ID: u8 = 0x01;

/// The NMT command byte of a state change message; other messages go as
/// SDO writes.
pub open spec fn nmt_command_of(msg: MotorMessage) -> Option<u8> {
    match msg {
        MotorMessage::EnterStopState => Some(0x02u8),
        MotorMessage::EnterPreoperationalState => Some(0x80u8),
        MotorMessage::EnterOperationalState => Some(0x01u8),
        _ => None,
    }
}

/// The network state changes go as the CANopen NMT commands: 0x01 starts
/// the node (operational), 0x02 stops it, 0x80 takes it to pre-operational;
/// distinct changes have distinct commands, and every other message goes as
/// an SDO write.
pub proof fn lemma_nmt_commands(m1: MotorMessage, m2: MotorMessage)
    ensures
        nmt_command_of(MotorMessage::EnterOperationalState) == Some(0x01u8),
        nmt_command_of(MotorMessage::EnterStopState) == Some(0x02u8),
        nmt_command_of(MotorMessage::EnterPreoperationalState) == Some(0x80u8),
        nmt_command_of(m1) is Some <==> (m1 is EnterOperationalState || m1 is EnterStopState
            || m1 is EnterPreoperationalState),
        nmt_command_of(m1) is Some && nmt_command_of(m1) == nmt_command_of(m2) ==> m1 == m2,
{
}

/// The NMT command byte of a state change message, or `None` for a message
/// sent as an SDO write.
pub fn nmt_command_for(msg: &MotorMessage) -> (r: Option<u8>)
    ensures
        r == nmt_command_of(*msg),
{
    match msg {
        MotorMessage::EnterStopState => Some(0x02),
        MotorMessage::EnterPreoperationalState => Some(0x80),
        MotorMessage::EnterOperationalState => Some(0x01),
        _ => None,
    }
}

/// The payload of an NMT frame (sent on identifier 0): the command, then
/// the node.
pub fn nmt_frame_data(command: u8) -> (data: [u8; 2])
    ensures
        data@ == seq![command, NODE_ID],
{
    let data = [command, NODE_ID];
    assert(data@ =~= seq![command, NODE_ID]);
    data
}

/// A CAN frame identifier.
#[derive(Clone, Copy, PartialEq, Eq, Structural, Debug)]
pub enum FrameId {
    /// An 11-bit identifier.
    Standard(u16),
    /// A 29-bit identifier.
    Extended(u32),
}

/// The largest 29-bit identifier.
pub const MAX_EXTENDED_ID: u32 = 0x1FFF_FFFF;

/// The frame identifier of an SDO frame: standard where the identifier fits
/// in 11 bits, extended otherwise.
pub fn sdo_frame_id(can_id: u32) -> (r: FrameId)
    requires
        can_id <= MAX_EXTENDED_ID,
    ensures
        can_id <= 0x7FF ==> r == FrameId::Standard(can_id as u16),
        can_id > 0x7FF ==> r == FrameId::Extended(can_id),
{
    if can_id <= 0x7FF {
        FrameId::Standard(can_id as u16)
    } else {
        FrameId::Extended(can_id)
    }
}

/// The motor controller's emergency frame identifier.
pub const MOTOR_EMERGENCY_ID: u32 = 0x081;

/// The motor controller's SDO response identifier.
pub const MOTOR_SDO_RESPONSE_ID: u32 = 0x581;

/// A frame from the motor controller reports an error: an emergency frame
/// with a non-zero error code, or an aborted SDO transfer.
pub open spec fn is_motor_error_frame(raw_id: u32, data: Seq<u8>) -> bool {
    ||| (raw_id == MOTOR_EMERGENCY_ID && data.len() >= 2 && spec_u16_from_le_bytes(
        data.subrange(0, 2),
    ) != 0)
    ||| (raw_id == MOTOR_SDO_RESPONSE_ID && data.len() >= 1 && data[0] == 0x80)
}

/// Whether a frame from the motor controller reports an error.
pub fn motor_frame_is_error(raw_id: u32, data: &[u8]) -> (r: bool)
    ensures
        r == is_motor_error_frame(raw_id, data@),
{
    let emergency_has_error_code = raw_id == MOTOR_EMERGENCY_ID && data.len() >= 2
        && u16_from_le_bytes(&data[0..2]) != 0;
    let sdo_was_aborted = raw_id == MOTOR_SDO_RESPONSE_ID && data.len() >= 1 && data[0] == 0x80;
    emergency_has_error_code || sdo_was_aborted
}

/// The configuration the motor controller gets at setup, in order; one
/// second passes after each.
pub open spec fn setup_sequence() -> Seq<(MotorMessage, u64)> {
    seq![
        (MotorMessage::TestModeCommand(0), 1u64),
        (MotorMessage::ModesOfOperation, 1u64),
        (MotorMessage::SensorType, 1u64),
        (MotorMessage::UndervoltageLimit, 1u64),
        (MotorMessage::TestStepperFrequency, 1u64),
        (MotorMessage::TestStepperEnable, 1u64),
        (MotorMessage::SetMaxCurrent, 1u64),
        (MotorMessage::SecondaryCurrentProtection, 1u64),
        (MotorMessage::MotorRatedCurrent, 1u64),
        (MotorMessage::OvervoltageLimit, 1u64),
    ]
}

/// The steps that make the motor controller operational and start the
/// drive, each with the seconds to wait after it.
pub open spec fn operational_sequence() -> Seq<(MotorMessage, u64)> {
    seq![
        (MotorMessage::EnterPreoperationalState, 30u64),
        (MotorMessage::EnterOperationalState, 1u64),
        (MotorMessage::Shutdown, 1u64),
        (MotorMessage::SwitchOn, 30u64),
        (MotorMessage::StartDrive, 15u64),
    ]
}

/// The low-power test acceleration: a test mode command, then three seconds.
pub open spec fn test_acceleration_sequence() -> Seq<(MotorMessage, u64)> {
    seq![(MotorMessage::TestModeCommand(200), 3u64)]
}

/// The motor controller setup, each message with the seconds to wait after.
pub fn run_setup_sequence() -> (v: Vec<(MotorMessage, u64)>)
    ensures
        v@ == setup_sequence(),
{
    let mut v = Vec::new();
    v.push((MotorMessage::TestModeCommand(0), 1));
    v.push((MotorMessage::ModesOfOperation, 1));
    v.push((MotorMessage::SensorType, 1));
    v.push((MotorMessage::UndervoltageLimit, 1));
    v.push((MotorMessage::TestStepperFrequency, 1));
    v.push((MotorMessage::TestStepperEnable, 1));
    v.push((MotorMessage::SetMaxCurrent, 1));
    v.push((MotorMessage::SecondaryCurrentProtection, 1));
    v.push((MotorMessage::MotorRatedCurrent, 1));
    v.push((MotorMessage::OvervoltageLimit, 1));
    assert(v@ =~= setup_sequence());
    v
}

/// The steps to operational, each message with the seconds to wait after.
pub fn run_operational_sequence() -> (v: Vec<(MotorMessage, u64)>)
    ensures
        v@ == operational_sequence(),
{
    let mut v = Vec::new();
    v.push((MotorMessage::EnterPreoperationalState, 30));
    v.push((MotorMessage::EnterOperationalState, 1));
    v.push((MotorMessage::Shutdown, 1));
    v.push((MotorMessage::SwitchOn, 30));
    v.push((MotorMessage::StartDrive, 15));
    assert(v@ =~= operational_sequence());
    v
}

/// The power states of the drive, as the CiA 402 device profile names them.
#[derive(Clone, Copy, PartialEq, Eq, Structural, Debug)]
pub enum DriveState {
    SwitchOnDisabled,
    ReadyToSwitchOn,
    SwitchedOn,
    OperationEnabled,
    QuickStopActive,
}

/// The drive's power state after a message, by the CiA 402 device control:
/// a shutdown takes a powered drive to ready to switch on; switching on
/// goes from ready (or back from operation) to switched on; starting the
/// drive enables operation from switched on; a quick stop stops an
/// operating drive and disables any other. `None` is a command that the
/// drive does not accept in that state. Configuration writes and network
/// state changes leave the power state as it is.
pub open spec fn drive_transition(s: DriveState, m: MotorMessage) -> Option<DriveState> {
    match m {
        MotorMessage::Shutdown => match s {
            DriveState::QuickStopActive => None,
            _ => Some(DriveState::ReadyToSwitchOn),
        },
        MotorMessage::SwitchOn => match s {
            DriveState::ReadyToSwitchOn | DriveState::SwitchedOn | DriveState::OperationEnabled => Some(
                DriveState::SwitchedOn,
            ),
            _ => None,
        },
        MotorMessage::StartDrive => match s {
            DriveState::SwitchedOn | DriveState::OperationEnabled => Some(DriveState::OperationEnabled),
            _ => None,
        },
        MotorMessage::QuickStop => match s {
            DriveState::OperationEnabled | DriveState::QuickStopActive => Some(
                DriveState::QuickStopActive,
            ),
            _ => Some(DriveState::SwitchOnDisabled),
        },
        _ => Some(s),
    }
}

/// The drive's power state after a sequence of messages, or `None` if one
/// of them is not accepted where it comes.
pub open spec fn drive_run(s: DriveState, steps: Seq<(MotorMessage, u64)>) -> Option<DriveState>
    decreases steps.len(),
{
    if steps.len() == 0 {
        Some(s)
    } else {
        match drive_transition(s, steps[0].0) {
            Some(next) => drive_run(next, steps.drop_first()),
            None => None,
        }
    }
}

/// Bringing the motor controller up works on the drive as it powers up:
/// from switch on disabled, the operational sequence is accepted step by
/// step and leaves the drive with operation enabled. The setup and the test
/// acceleration only configure it: they leave any power state as it is.
/// No step of the three sequences is a quick stop.
pub proof fn lemma_bring_up_enables_drive(s: DriveState)
    ensures
        drive_run(DriveState::SwitchOnDisabled, operational_sequence()) == Some(
            DriveState::OperationEnabled,
        ),
        drive_run(s, setup_sequence()) == Some(s),
        drive_run(s, test_acceleration_sequence()) == Some(s),
        forall|i: int|
            0 <= i < operational_sequence().len() ==> operational_sequence()[i].0
                != MotorMessage::QuickStop,
        forall|i: int|
            0 <= i < setup_sequence().len() ==> setup_sequence()[i].0 != MotorMessage::QuickStop,
{
    reveal_with_fuel(drive_run, 6);
    let ops = operational_sequence();
    assert(ops.drop_first() =~= seq![ops[1], ops[2], ops[3], ops[4]]);
    assert(ops.drop_first().drop_first() =~= seq![ops[2], ops[3], ops[4]]);
    assert(ops.drop_first().drop_first().drop_first() =~= seq![ops[3], ops[4]]);
    assert(ops.drop_first().drop_first().drop_first().drop_first() =~= seq![ops[4]]);
    assert(ops.drop_first().drop_first().drop_first().drop_first().drop_first() =~= Seq::<
        (MotorMessage, u64),
    >::empty());
    lemma_config_run_keeps_state(s, setup_sequence());
    lemma_config_run_keeps_state(s, test_acceleration_sequence());
}

/// Messages that leave the power state as it is leave it so in sequence.
proof fn lemma_config_run_keeps_state(s: DriveState, steps: Seq<(MotorMessage, u64)>)
    requires
        forall|j: int| 0 <= j < steps.len() ==> drive_transition(s, #[trigger] steps[j].0) == Some(s),
    ensures
        drive_run(s, steps) == Some(s),
    decreases steps.len(),
{
    if steps.len() > 0 {
        assert(drive_transition(s, steps[0].0) == Some(s));
        assert forall|j: int| 0 <= j < steps.drop_first().len() implies drive_transition(
            s,
            #[trigger] steps.drop_first()[j].0,
        ) == Some(s) by {
            assert(steps.drop_first()[j] == steps[j + 1]);
        }
        lemma_config_run_keeps_state(s, steps.drop_first());
    }
}

/// What the motor command task does for one event: the messages to send,
/// each with the seconds to wait after it, then the reply on the main bus.
#[derive(Clone, PartialEq, Eq, Debug)]
pub struct MotorCommandStep {
    pub commands: Vec<(MotorMessage, u64)>,
    pub reply: Option<CanMessage>,
}

/// How far the motor controller has been brought.
#[derive(Clone, Copy, PartialEq, Eq, Structural, Debug)]
pub struct MotorCommandState {
    pub setup_complete: bool,
    pub operational: bool,
}

/// The motor command task's state after an event, the messages it sends
/// and its reply. Setup runs once; the operational sequence runs once and
/// only after setup; the test acceleration only once operational. A repeated
/// setup or operational command is answered again without running anything.
pub open spec fn motor_command_transition(s: MotorCommandState, e: Event) -> (
    MotorCommandState,
    Seq<(MotorMessage, u64)>,
    Option<CanMessage>,
) {
    match e {
        Event::MotorControllerSetupCommand => if s.setup_complete {
            (s, Seq::empty(), Some(CanMessage::MotorControllerSetupComplete))
        } else {
            (
                MotorCommandState { setup_complete: true, ..s },
                setup_sequence(),
                Some(CanMessage::MotorControllerSetupComplete),
            )
        },
        Event::MotorControllerSetOperationalCommand => if !s.setup_complete {
            (s, Seq::empty(), None)
        } else if s.operational {
            (s, Seq::empty(), Some(CanMessage::MotorControllerOperational))
        } else {
            (
                MotorCommandState { operational: true, ..s },
                operational_sequence(),
                Some(CanMessage::MotorControllerOperational),
            )
        },
        Event::StartPropulsionAccelerationCommand => if !s.operational {
            (s, Seq::empty(), None)
        } else {
            (s, test_acceleration_sequence(), Some(CanMessage::PropulsionAccelerationStarted))
        },
        _ => (s, Seq::empty(), None),
    }
}

impl MotorCommandState {
    /// Nothing set up.
    pub fn new() -> (s: Self)
        ensures
            s == (MotorCommandState { setup_complete: false, operational: false }),
    {
        MotorCommandState { setup_complete: false, operational: false }
    }

    /// Handles an event of the motor command task.
    pub fn handle(&mut self, event: &Event) -> (step: MotorCommandStep)
        ensures
            (*final(self), step.commands@, step.reply) == motor_command_transition(
                *old(self),
                *event,
            ),
    {
        match event {
            Event::MotorControllerSetupCommand => {
                if self.setup_complete {
                    MotorCommandStep {
                        commands: Vec::new(),
                        reply: Some(CanMessage::MotorControllerSetupComplete),
                    }
                } else {
                    let commands = run_setup_sequence();
                    self.setup_complete = true;
                    MotorCommandStep {
                        commands,
                        reply: Some(CanMessage::MotorControllerSetupComplete),
                    }
                }
            },
            Event::MotorControllerSetOperationalCommand => {
                if !self.setup_complete {
                    MotorCommandStep { commands: Vec::new(), reply: None }
                } else if self.operational {
                    MotorCommandStep {
                        commands: Vec::new(),
                        reply: Some(CanMessage::MotorControllerOperational),
                    }
                } else {
                    let commands = run_operational_sequence();
                    self.operational = true;
                    MotorCommandStep {
                        commands,
                        reply: Some(CanMessage::MotorControllerOperational),
                    }
                }
            },
            Event::StartPropulsionAccelerationCommand => {
                if !self.operational {
                    MotorCommandStep { commands: Vec::new(), reply: None }
                } else {
                    let mut commands = Vec::new();
                    commands.push((MotorMessage::TestModeCommand(200), 3));
                    assert(commands@ =~= test_acceleration_sequence());
                    MotorCommandStep {
                        commands,
                        reply: Some(CanMessage::PropulsionAccelerationStarted),
                    }
                }
            },
            _ => MotorCommandStep { commands: Vec::new(), reply: None },
        }
    }
}

/// The motor controller is only operational once set up, and stays so: from
/// a state where that holds, every event leads to one where it holds, and
/// neither setup nor operation is ever undone.
pub proof fn lemma_motor_command_progress(s: MotorCommandState, e: Event)
    requires
        s.operational ==> s.setup_complete,
    ensures
        motor_command_transition(s, e).0.operational ==> motor_command_transition(
            s,
            e,
        ).0.setup_complete,
        s.setup_complete ==> motor_command_transition(s, e).0.setup_complete,
        s.operational ==> motor_command_transition(s, e).0.operational,
{
}

/// The setup sequence and the operational sequence are each sent at most
/// once: only from a state that has not done them, and the state after has.
pub proof fn lemma_sequences_run_once(s: MotorCommandState, e: Event)
    ensures
        motor_command_transition(s, e).1 == setup_sequence() ==> !s.setup_complete
            && motor_command_transition(s, e).0.setup_complete,
        motor_command_transition(s, e).1 == operational_sequence() ==> !s.operational
            && motor_command_transition(s, e).0.operational,
{
    assert(setup_sequence().len() == 10);
    assert(operational_sequence().len() == 5);
    assert(test_acceleration_sequence().len() == 1);
    assert(setup_sequence() != operational_sequence()) by {
        assert(setup_sequence().len() != operational_sequence().len());
    }
}


/// What the motor control board does to the hardware for an event.
#[derive(Clone, Copy, PartialEq, Eq, Structural, Debug)]
pub enum Actuation {
    /// Unclamp the brakes.
    ReleaseBrakeSolenoid,
    /// Clamp the brakes.
    EngageBrakeSolenoid,
    /// Queue a message for the motor controller.
    Send(MotorMessage),
}

/// The brakes and propulsion as the motor control board last set them, and
/// how many of each command it has received.
#[derive(Clone, Copy, PartialEq, Eq, Structural, Debug)]
pub struct BrakePropulsionState {
    pub brakes_clamped: bool,
    pub propulsion_active: bool,
    pub unclamp_cmd_count: u32,
    pub clamp_cmd_count: u32,
    pub accel_cmd_count: u32,
    pub brake_cmd_count: u32,
}

/// What the motor control board does for one event: the hardware actions
/// in order, the event it publishes back, and the command's count.
#[derive(Clone, PartialEq, Eq, Debug)]
pub struct EventResponse {
    pub actuations: Vec<Actuation>,
    pub reply: Option<Event>,
    pub count: Option<u32>,
}

/// The next value of a command counter: one more, wrapping to zero past
/// the largest `u32`.
pub open spec fn next_count(x: u32) -> u32 {
    if x == u32::MAX {
        0
    } else {
        (x + 1) as u32
    }
}

/// One more on a command counter, wrapping to zero past the largest `u32`.
fn advance_count(x: u32) -> (r: u32)
    ensures
        r == next_count(x),
{
    if x == u32::MAX {
        0
    } else {
        x + 1
    }
}

/// The board's state after an event, its hardware actions, its reply and
/// the command's count. Every brake and propulsion command is counted and
/// answered; it acts only when it changes something, so a repeated command
/// acts once. Stopping propulsion sends a quick stop, then a shutdown.
pub open spec fn brake_propulsion_transition(s: BrakePropulsionState, e: Event) -> (
    BrakePropulsionState,
    Seq<Actuation>,
    Option<Event>,
    Option<u32>,
) {
    match e {
        Event::UnclampBrakesCommand => {
            let n = next_count(s.unclamp_cmd_count);
            (
                BrakePropulsionState { brakes_clamped: false, unclamp_cmd_count: n, ..s },
                if s.brakes_clamped {
                    seq![Actuation::ReleaseBrakeSolenoid]
                } else {
                    Seq::empty()
                },
                Some(Event::BrakesUnclamped { from: Board::MotorControl }),
                Some(n),
            )
        },
        Event::ClampBrakesCommand => {
            let n = next_count(s.clamp_cmd_count);
            (
                BrakePropulsionState { brakes_clamped: true, clamp_cmd_count: n, ..s },
                if !s.brakes_clamped {
                    seq![Actuation::EngageBrakeSolenoid]
                } else {
                    Seq::empty()
                },
                Some(Event::BrakesClamped { from: Board::MotorControl }),
                Some(n),
            )
        },
        Event::StartPropulsionAccelerationCommand => {
            let n = next_count(s.accel_cmd_count);
            (
                BrakePropulsionState { propulsion_active: true, accel_cmd_count: n, ..s },
                if !s.propulsion_active {
                    seq![Actuation::Send(MotorMessage::StartDrive)]
                } else {
                    Seq::empty()
                },
                Some(Event::PropulsionAccelerationStarted),
                Some(n),
            )
        },
        Event::StartPropulsionBrakingCommand => {
            let n = next_count(s.brake_cmd_count);
            (
                BrakePropulsionState { propulsion_active: false, brake_cmd_count: n, ..s },
                if s.propulsion_active {
                    seq![
                        Actuation::Send(MotorMessage::QuickStop),
                        Actuation::Send(MotorMessage::Shutdown),
                    ]
                } else {
                    Seq::empty()
                },
                Some(Event::PropulsionBrakingStarted),
                Some(n),
            )
        },
        _ => (s, Seq::empty(), None, None),
    }
}

impl BrakePropulsionState {
    /// Brakes clamped, propulsion off, nothing counted.
    pub fn new() -> (s: Self)
        ensures
            s == (BrakePropulsionState {
                brakes_clamped: true,
                propulsion_active: false,
                unclamp_cmd_count: 0,
                clamp_cmd_count: 0,
                accel_cmd_count: 0,
                brake_cmd_count: 0,
            }),
    {
        BrakePropulsionState {
            brakes_clamped: true,
            propulsion_active: false,
            unclamp_cmd_count: 0,
            clamp_cmd_count: 0,
            accel_cmd_count: 0,
            brake_cmd_count: 0,
        }
    }

    /// Handles an event of the motor control board.
    pub fn handle(&mut self, event: &Event) -> (r: EventResponse)
        ensures
            (*final(self), r.actuations@, r.reply, r.count) == brake_propulsion_transition(
                *old(self),
                *event,
            ),
    {
        let mut actuations: Vec<Actuation> = Vec::new();
        match event {
            Event::UnclampBrakesCommand => {
                self.unclamp_cmd_count = advance_count(self.unclamp_cmd_count);
                if self.brakes_clamped {
                    actuations.push(Actuation::ReleaseBrakeSolenoid);
                    self.brakes_clamped = false;
                }
                assert(actuations@ =~= brake_propulsion_transition(*old(self), *event).1);
                EventResponse {
                    actuations,
                    reply: Some(Event::BrakesUnclamped { from: Board::MotorControl }),
                    count: Some(self.unclamp_cmd_count),
                }
            },
            Event::ClampBrakesCommand => {
                self.clamp_cmd_count = advance_count(self.clamp_cmd_count);
                if !self.brakes_clamped {
                    actuations.push(Actuation::EngageBrakeSolenoid);
                    self.brakes_clamped = true;
                }
                assert(actuations@ =~= brake_propulsion_transition(*old(self), *event).1);
                EventResponse {
                    actuations,
                    reply: Some(Event::BrakesClamped { from: Board::MotorControl }),
                    count: Some(self.clamp_cmd_count),
                }
            },
            Event::StartPropulsionAccelerationCommand => {
                self.accel_cmd_count = advance_count(self.accel_cmd_count);
                if !self.propulsion_active {
                    actuations.push(Actuation::Send(MotorMessage::StartDrive));
                    self.propulsion_active = true;
                }
                assert(actuations@ =~= brake_propulsion_transition(*old(self), *event).1);
                EventResponse {
                    actuations,
                    reply: Some(Event::PropulsionAccelerationStarted),
                    count: Some(self.accel_cmd_count),
                }
            },
            Event::StartPropulsionBrakingCommand => {
                self.brake_cmd_count = advance_count(self.brake_cmd_count);
                if self.propulsion_active {
                    actuations.push(Actuation::Send(MotorMessage::QuickStop));
                    actuations.push(Actuation::Send(MotorMessage::Shutdown));
                    self.propulsion_active = false;
                }
                assert(actuations@ =~= brake_propulsion_transition(*old(self), *event).1);
                EventResponse {
                    actuations,
                    reply: Some(Event::PropulsionBrakingStarted),
                    count: Some(self.brake_cmd_count),
                }
            },
            _ => {
                assert(actuations@ =~= brake_propulsion_transition(*old(self), *event).1);
                EventResponse { actuations, reply: None, count: None }
            },
        }
    }
}

/// The brake and propulsion commands are idempotent: a command received a
/// second time changes neither the brakes nor the propulsion and acts on
/// no hardware, and it is answered as the first time.
pub proof fn lemma_commands_idempotent(s: BrakePropulsionState, e: Event)
    ensures
        ({
            let (s1, _, reply1, _) = brake_propulsion_transition(s, e);
            let (s2, acts2, reply2, _) = brake_propulsion_transition(s1, e);
            &&& s2.brakes_clamped == s1.brakes_clamped
            &&& s2.propulsion_active == s1.propulsion_active
            &&& acts2.len() == 0
            &&& reply2 == reply1
        }),
{
}

/// After a clamp command the brakes are clamped and after an unclamp
/// command they are not, whatever they were; likewise propulsion is on
/// after an acceleration command and off after a braking command.
pub proof fn lemma_commands_set_state(s: BrakePropulsionState)
    ensures
        brake_propulsion_transition(s, Event::ClampBrakesCommand).0.brakes_clamped,
        !brake_propulsion_transition(s, Event::UnclampBrakesCommand).0.brakes_clamped,
        brake_propulsion_transition(s, Event::StartPropulsionAccelerationCommand).0.propulsion_active,
        !brake_propulsion_transition(s, Event::StartPropulsionBrakingCommand).0.propulsion_active,
{
}


/// The reply the motor control board publishes for an event, whatever its
/// state: each brake and propulsion command is answered, nothing else is.
pub open spec fn reply_for(e: Event) -> Option<Event> {
    match e {
        Event::UnclampBrakesCommand => Some(Event::BrakesUnclamped { from: Board::MotorControl }),
        Event::ClampBrakesCommand => Some(Event::BrakesClamped { from: Board::MotorControl }),
        Event::StartPropulsionAccelerationCommand => Some(Event::PropulsionAccelerationStarted),
        Event::StartPropulsionBrakingCommand => Some(Event::PropulsionBrakingStarted),
        _ => None,
    }
}

/// The state, the hardware actions and the replies of the board over a run
/// of events, from the given state.
pub open spec fn brake_propulsion_run(s: BrakePropulsionState, es: Seq<Event>) -> (
    BrakePropulsionState,
    Seq<Actuation>,
    Seq<Option<Event>>,
)
    decreases es.len(),
{
    if es.len() == 0 {
        (s, Seq::empty(), Seq::empty())
    } else {
        let (s1, acts, reply, _) = brake_propulsion_transition(s, es[0]);
        let (last, rest_acts, rest_replies) = brake_propulsion_run(s1, es.drop_first());
        (last, acts + rest_acts, seq![reply] + rest_replies)
    }
}

/// Whether the brakes are clamped after a run of events: as the last clamp
/// or unclamp command of the run left them, or as they were if it has none.
pub open spec fn clamped_after(clamped: bool, es: Seq<Event>) -> bool
    decreases es.len(),
{
    if es.len() == 0 {
        clamped
    } else {
        let next = match es[0] {
            Event::ClampBrakesCommand => true,
            Event::UnclampBrakesCommand => false,
            _ => clamped,
        };
        clamped_after(next, es.drop_first())
    }
}

/// Whether propulsion is active after a run of events: as the last
/// acceleration or braking command left it, or as it was if it has none.
pub open spec fn propulsion_after(active: bool, es: Seq<Event>) -> bool
    decreases es.len(),
{
    if es.len() == 0 {
        active
    } else {
        let next = match es[0] {
            Event::StartPropulsionAccelerationCommand => true,
            Event::StartPropulsionBrakingCommand => false,
            _ => active,
        };
        propulsion_after(next, es.drop_first())
    }
}

/// The solenoid actions alternate from the given clamp state: a release
/// only while clamped, an engage only while unclamped.
pub open spec fn solenoid_alternates(clamped: bool, acts: Seq<Actuation>) -> bool
    decreases acts.len(),
{
    if acts.len() == 0 {
        true
    } else {
        match acts[0] {
            Actuation::ReleaseBrakeSolenoid => clamped && solenoid_alternates(false, acts.drop_first()),
            Actuation::EngageBrakeSolenoid => !clamped && solenoid_alternates(true, acts.drop_first()),
            Actuation::Send(_) => solenoid_alternates(clamped, acts.drop_first()),
        }
    }
}

/// Over any run of events the board answers each event as `reply_for` says,
/// in order; the brakes end as the last clamp or unclamp command set them
/// and propulsion as the last acceleration or braking command set it; and
/// the solenoid is released only while clamped and engaged only while
/// unclamped, so a repeated command actuates nothing more.
pub proof fn lemma_brake_propulsion_run(s: BrakePropulsionState, es: Seq<Event>)
    ensures
        brake_propulsion_run(s, es).2 == es.map_values(|e: Event| reply_for(e)),
        brake_propulsion_run(s, es).0.brakes_clamped == clamped_after(s.brakes_clamped, es),
        brake_propulsion_run(s, es).0.propulsion_active == propulsion_after(s.propulsion_active, es),
        solenoid_alternates(s.brakes_clamped, brake_propulsion_run(s, es).1),
    decreases es.len(),
{
    if es.len() > 0 {
        let (s1, acts, reply, _) = brake_propulsion_transition(s, es[0]);
        lemma_brake_propulsion_run(s1, es.drop_first());
        let (last, rest_acts, rest_replies) = brake_propulsion_run(s1, es.drop_first());
        assert(es.map_values(|e: Event| reply_for(e)) =~= seq![reply_for(es[0])] + es.drop_first().map_values(
            |e: Event| reply_for(e),
        ));
        let all = acts + rest_acts;
        if acts.len() == 1 {
            assert(all.drop_first() =~= rest_acts);
        } else if acts.len() == 2 {
            assert(all.drop_first().drop_first() =~= rest_acts);
            assert(all.drop_first()[0] == acts[1]);
            assert(solenoid_alternates(s1.brakes_clamped, all.drop_first()));
        } else {
            assert(all =~= rest_acts);
        }
    }
}

/// The SDO identifier the motor controller listens on.
pub const SDO_TX_ID: u16 = 0x601;

/// The SDO identifier the motor controller answers on.
pub const SDO_RX_ID: u16 = 0x581;

/// The object that holds the motor controller's warning bits.
pub const WARNING_OBJECT_INDEX: u16 = 0x2027;

/// The payload of an SDO upload request for an object: the command byte,
/// the index little-endian, the sub-index, and four zeros.
pub fn sdo_read_request(index: u16, sub_index: u8) -> (data: [u8; 8])
    ensures
        data@ == seq![
            0x40u8,
            (index % 256) as u8,
            (index / 256) as u8,
            sub_index,
            0u8,
            0u8,
            0u8,
            0u8,
        ],
{
    let data = [0x40, (index % 256) as u8, (index / 256) as u8, sub_index, 0, 0, 0, 0];
    assert(data@ =~= seq![
        0x40u8,
        (index % 256) as u8,
        (index / 256) as u8,
        sub_index,
        0u8,
        0u8,
        0u8,
        0u8,
    ]);
    data
}

/// A warning the motor controller can raise, in the order of its bits.
#[derive(Clone, Copy, PartialEq, Eq, Structural, Debug)]
pub enum MotorWarning {
    ControllerTemperatureExceeded,
    MotorTemperatureExceeded,
    DcLinkUnderVoltage,
    DcLinkOverVoltage,
    DcLinkOverCurrent,
    StallProtectionActive,
    MaxVelocityExceeded,
    BmsProposedPower,
    CapacitorTemperatureExceeded,
    I2tProtection,
    FieldWeakeningActive,
}

/// The number of warning bits.
pub const WARNING_BITS: u32 = 11;

/// The warning of bit `i`.
pub open spec fn warning_of_bit(i: u32) -> MotorWarning {
    if i == 0 {
        MotorWarning::ControllerTemperatureExceeded
    } else if i == 1 {
        MotorWarning::MotorTemperatureExceeded
    } else if i == 2 {
        MotorWarning::DcLinkUnderVoltage
    } else if i == 3 {
        MotorWarning::DcLinkOverVoltage
    } else if i == 4 {
        MotorWarning::DcLinkOverCurrent
    } else if i == 5 {
        MotorWarning::StallProtectionActive
    } else if i == 6 {
        MotorWarning::MaxVelocityExceeded
    } else if i == 7 {
        MotorWarning::BmsProposedPower
    } else if i == 8 {
        MotorWarning::CapacitorTemperatureExceeded
    } else if i == 9 {
        MotorWarning::I2tProtection
    } else {
        MotorWarning::FieldWeakeningActive
    }
}

fn warning_for_bit(i: u32) -> (w: MotorWarning)
    ensures
        w == warning_of_bit(i),
{
    if i == 0 {
        MotorWarning::ControllerTemperatureExceeded
    } else if i == 1 {
        MotorWarning::MotorTemperatureExceeded
    } else if i == 2 {
        MotorWarning::DcLinkUnderVoltage
    } else if i == 3 {
        MotorWarning::DcLinkOverVoltage
    } else if i == 4 {
        MotorWarning::DcLinkOverCurrent
    } else if i == 5 {
        MotorWarning::StallProtectionActive
    } else if i == 6 {
        MotorWarning::MaxVelocityExceeded
    } else if i == 7 {
        MotorWarning::BmsProposedPower
    } else if i == 8 {
        MotorWarning::CapacitorTemperatureExceeded
    } else if i == 9 {
        MotorWarning::I2tProtection
    } else {
        MotorWarning::FieldWeakeningActive
    }
}

/// The warnings of the bits below `n` that are set in `bits`, lowest bit
/// first.
pub open spec fn warnings_below(bits: u32, n: u32) -> Seq<MotorWarning>
    decreases n,
{
    if n == 0 {
        Seq::empty()
    } else {
        let i = (n - 1) as u32;
        warnings_below(bits, i) + if bits & (1u32 << i) != 0 {
            seq![warning_of_bit(i)]
        } else {
            Seq::empty()
        }
    }
}

/// The active warnings of the warning register, lowest bit first; bits
/// past the known warnings are not reported.
pub fn decode_warning_bits(warnings: u32) -> (r: Vec<MotorWarning>)
    ensures
        r@ == warnings_below(warnings, WARNING_BITS),
{
    let mut r: Vec<MotorWarning> = Vec::new();
    if warnings == 0 {
        proof {
            lemma_no_bits_no_warnings(WARNING_BITS);
        }
        return r;
    }
    let mut i: u32 = 0;
    while i < WARNING_BITS
        invariant
            i <= WARNING_BITS,
            r@ == warnings_below(warnings, i),
        decreases WARNING_BITS - i,
    {
        if warnings & (1u32 << i) != 0 {
            r.push(warning_for_bit(i));
        }
        i = i + 1;
        proof {
            assert(warnings_below(warnings, i) == warnings_below(warnings, (i - 1) as u32) + if warnings & (1u32 << ((i - 1) as u32)) != 0 {
                seq![warning_of_bit((i - 1) as u32)]
            } else {
                Seq::empty()
            });
        }
        assert(r@ =~= warnings_below(warnings, i));
    }
    r
}

proof fn lemma_no_bits_no_warnings(n: u32)
    requires
        n <= 32,
    ensures
        warnings_below(0, n) == Seq::<MotorWarning>::empty(),
    decreases n,
{
    if n > 0 {
        let i = (n - 1) as u32;
        lemma_no_bits_no_warnings(i);
        assert(0u32 & (1u32 << i) == 0) by (bit_vector);
        assert(warnings_below(0, n) =~= Seq::<MotorWarning>::empty());
    }
}

/// The line logged for an active warning.
pub open spec fn warning_line_of(w: MotorWarning) -> Seq<char> {
    match w {
        MotorWarning::ControllerTemperatureExceeded => " - Controller temperature exceeded"@,
        MotorWarning::MotorTemperatureExceeded => " - Motor temperature exceeded"@,
        MotorWarning::DcLinkUnderVoltage => " - DC link under voltage"@,
        MotorWarning::DcLinkOverVoltage => " - DC link over voltage"@,
        MotorWarning::DcLinkOverCurrent => " - DC link over current"@,
        MotorWarning::StallProtectionActive => " - Stall protection active"@,
        MotorWarning::MaxVelocityExceeded => " - Max velocity exceeded"@,
        MotorWarning::BmsProposedPower => " - BMS proposed power"@,
        MotorWarning::CapacitorTemperatureExceeded => " - Capacitor temperature exceeded"@,
        MotorWarning::I2tProtection => " - I2T protection"@,
        MotorWarning::FieldWeakeningActive => " - Field weakening active"@,
    }
}

/// The lines logged for the warning register: a single line when no bit is
/// set; else a heading, then one line per active warning, lowest bit first.
pub open spec fn warning_lines_of(warnings: u32) -> Seq<Seq<char>> {
    if warnings == 0 {
        seq!["No active warnings"@]
    } else {
        seq!["Active warnings:"@] + warnings_below(warnings, WARNING_BITS).map_values(
            |w: MotorWarning| warning_line_of(w),
        )
    }
}

/// The warning register's bits, lowest first, are logged as the controller
/// documents them: bit 0 controller temperature, 1 motor temperature, 2 and
/// 3 DC link under and over voltage, 4 DC link over current, 5 stall
/// protection, 6 maximum velocity, 7 BMS proposed power, 8 capacitor
/// temperature, 9 I2T protection and 10 field weakening; distinct bits are
/// distinct warnings.
pub proof fn lemma_warning_bits_named(i: u32, j: u32)
    ensures
        warning_line_of(warning_of_bit(0u32)) == " - Controller temperature exceeded"@,
        warning_line_of(warning_of_bit(1u32)) == " - Motor temperature exceeded"@,
        warning_line_of(warning_of_bit(2u32)) == " - DC link under voltage"@,
        warning_line_of(warning_of_bit(3u32)) == " - DC link over voltage"@,
        warning_line_of(warning_of_bit(4u32)) == " - DC link over current"@,
        warning_line_of(warning_of_bit(5u32)) == " - Stall protection active"@,
        warning_line_of(warning_of_bit(6u32)) == " - Max velocity exceeded"@,
        warning_line_of(warning_of_bit(7u32)) == " - BMS proposed power"@,
        warning_line_of(warning_of_bit(8u32)) == " - Capacitor temperature exceeded"@,
        warning_line_of(warning_of_bit(9u32)) == " - I2T protection"@,
        warning_line_of(warning_of_bit(10u32)) == " - Field weakening active"@,
        i < WARNING_BITS && j < WARNING_BITS && warning_of_bit(i) == warning_of_bit(j) ==> i == j,
{
}

/// The line logged for an active warning.
pub fn warning_line(w: MotorWarning) -> (s: &'static str)
    ensures
        s@ == warning_line_of(w),
{
    match w {
        MotorWarning::ControllerTemperatureExceeded => " - Controller temperature exceeded",
        MotorWarning::MotorTemperatureExceeded => " - Motor temperature exceeded",
        MotorWarning::DcLinkUnderVoltage => " - DC link under voltage",
        MotorWarning::DcLinkOverVoltage => " - DC link over voltage",
        MotorWarning::DcLinkOverCurrent => " - DC link over current",
        MotorWarning::StallProtectionActive => " - Stall protection active",
        MotorWarning::MaxVelocityExceeded => " - Max velocity exceeded",
        MotorWarning::BmsProposedPower => " - BMS proposed power",
        MotorWarning::CapacitorTemperatureExceeded => " - Capacitor temperature exceeded",
        MotorWarning::I2tProtection => " - I2T protection",
        MotorWarning::FieldWeakeningActive => " - Field weakening active",
    }
}

/// The lines to log for the warning register, in order.
pub fn warning_log_lines(warnings: u32) -> (r: Vec<&'static str>)
    ensures
        r@.map_values(|s: &'static str| s@) == warning_lines_of(warnings),
{
    let mut r: Vec<&'static str> = Vec::new();
    if warnings == 0 {
        r.push("No active warnings");
        assert(r@.map_values(|s: &'static str| s@) =~= warning_lines_of(warnings));
        return r;
    }
    r.push("Active warnings:");
    let active = decode_warning_bits(warnings);
    let mut i: usize = 0;
    while i < active.len()
        invariant
            i <= active.len(),
            active@ == warnings_below(warnings, WARNING_BITS),
            r@.map_values(|s: &'static str| s@) =~= seq!["Active warnings:"@] + active@.subrange(
                0,
                i as int,
            ).map_values(|w: MotorWarning| warning_line_of(w)),
        decreases active.len() - i,
    {
        let ghost before = r@;
        let line = warning_line(active[i]);
        r.push(line);
        proof {
            assert(active@.subrange(0, i + 1) =~= active@.subrange(0, i as int).push(active@[i as int]));
            assert(r@ =~= before.push(line));
            assert(r@.map_values(|s: &'static str| s@) =~= before.map_values(|s: &'static str| s@).push(line@));
            assert(active@.subrange(0, i + 1).map_values(|w: MotorWarning| warning_line_of(w)) =~= active@.subrange(
                0,
                i as int,
            ).map_values(|w: MotorWarning| warning_line_of(w)).push(warning_line_of(active@[i as int])));
        }
        i = i + 1;
    }
    assert(active@.subrange(0, i as int) =~= active@);
    assert(r@.map_values(|s: &'static str| s@) =~= warning_lines_of(warnings));
    r
}

/// The message and the event that a motor controller error frame raises:
/// an emergency of the motor control board of unknown reason, on the bus
/// and as an event. A frame that is no error raises nothing.
pub fn motor_error_response(raw_id: u32, data: &[u8]) -> (r: Option<(CanMessage, Event)>)
    ensures
        r == (if is_motor_error_frame(raw_id, data@) {
            Some(
                (
                    CanMessage::Emergency(Board::MotorControl, Reason::Unknown),
                    Event::Emergency { from: Board::MotorControl, reason: Reason::Unknown },
                ),
            )
        } else {
            None
        }),
{
    if motor_frame_is_error(raw_id, data) {
        Some(
            (
                CanMessage::Emergency(Board::MotorControl, Reason::Unknown),
                Event::Emergency { from: Board::MotorControl, reason: Reason::Unknown },
            ),
        )
    } else {
        None
    }
}

/// What an answer on the SDO response identifier says about the warning
/// register.
#[derive(Clone, Copy, PartialEq, Eq, Structural, Debug)]
pub enum WarningReadOutcome {
    /// A frame from another node, or an extended frame: keep waiting.
    NotForUs,
    /// Fewer than eight bytes: keep waiting.
    ShortFrame,
    /// The register's value.
    Warnings(u32),
    /// The transfer was aborted with this code.
    Aborted(u32),
    /// An answer about another object, or of another kind: keep waiting.
    Unrelated,
}

/// The frame answers about the warning register: index 0x2027, sub-index 0.
pub open spec fn is_warning_object(data: Seq<u8>) -> bool {
    data[1] == 0x27 && data[2] == 0x20 && data[3] == 0x00
}

/// What a frame from the motor bus says about the warning register read.
pub open spec fn warning_read_outcome(standard_id: Option<u16>, data: Seq<u8>) -> WarningReadOutcome {
    match standard_id {
        None => WarningReadOutcome::NotForUs,
        Some(id) => if id != SDO_RX_ID {
            WarningReadOutcome::NotForUs
        } else if data.len() < 8 {
            WarningReadOutcome::ShortFrame
        } else if data[0] == 0x43 && is_warning_object(data) {
            WarningReadOutcome::Warnings(spec_u32_from_le_bytes(data.subrange(4, 8)))
        } else if data[0] == 0x4B && is_warning_object(data) {
            WarningReadOutcome::Warnings(spec_u16_from_le_bytes(data.subrange(4, 6)) as u32)
        } else if data[0] == 0x4F && is_warning_object(data) {
            WarningReadOutcome::Warnings(data[4] as u32)
        } else if data[0] == 0x80 {
            WarningReadOutcome::Aborted(spec_u32_from_le_bytes(data.subrange(4, 8)))
        } else {
            WarningReadOutcome::Unrelated
        },
    }
}

/// Reads a frame from the motor bus while waiting for the warning register:
/// `standard_id` is the frame's 11-bit identifier, `None` for an extended
/// frame.
pub fn read_warning_response(standard_id: Option<u16>, data: &[u8]) -> (r: WarningReadOutcome)
    ensures
        r == warning_read_outcome(standard_id, data@),
{
    let id = match standard_id {
        None => return WarningReadOutcome::NotForUs,
        Some(id) => id,
    };
    if id != SDO_RX_ID {
        return WarningReadOutcome::NotForUs;
    }
    if data.len() < 8 {
        return WarningReadOutcome::ShortFrame;
    }
    let ours = data[1] == 0x27 && data[2] == 0x20 && data[3] == 0x00;
    if data[0] == 0x43 && ours {
        WarningReadOutcome::Warnings(u32_from_le_bytes(&data[4..8]))
    } else if data[0] == 0x4B && ours {
        WarningReadOutcome::Warnings(u16_from_le_bytes(&data[4..6]) as u32)
    } else if data[0] == 0x4F && ours {
        WarningReadOutcome::Warnings(data[4] as u32)
    } else if data[0] == 0x80 {
        WarningReadOutcome::Aborted(u32_from_le_bytes(&data[4..8]))
    } else {
        WarningReadOutcome::Unrelated
    }
}


/// What the braking loop concludes from the navigation data, before the
/// latch of the brakes is taken into account.
#[derive(Clone, Copy, PartialEq, Eq, Structural, Debug)]
pub enum BrakingDecision {
    /// No navigation data for longer than the timeout.
    DataTimeout,
    /// Position or target unknown while moving.
    LostPosition,
    /// Not all of position, target and velocity known yet.
    Wait,
    /// The projected stopping point reaches the target.
    Brake,
    /// The pod can keep going.
    Release,
}

/// A hardware action of the braking loop.
#[derive(Clone, Copy, PartialEq, Eq, Structural, Debug)]
pub enum BrakeAction {
    /// Queue a message for the motor controller.
    Send(MotorMessage),
    /// Drive the brake solenoid low, which clamps the brakes.
    SolenoidLow,
    /// Drive the brake solenoid high, which unclamps the brakes.
    SolenoidHigh,
}

/// The braking loop at its start: the brakes are not engaged and the
/// solenoid is driven high, so that the brakes start unclamped.
pub open spec fn braking_start_state() -> (bool, Seq<BrakeAction>) {
    (false, seq![BrakeAction::SolenoidHigh])
}

/// The braking loop's latch and actions for a decision. A timeout or a lost
/// position stops the drive and clamps; reaching the braking point stops
/// and shuts down the drive and clamps; each of these only once, while the
/// brakes are not yet engaged. The brakes latch: once engaged, nothing
/// releases them, and a release decision does nothing.
pub open spec fn braking_transition(engaged: bool, d: BrakingDecision) -> (bool, Seq<BrakeAction>) {
    match d {
        BrakingDecision::DataTimeout | BrakingDecision::LostPosition => if engaged {
            (true, Seq::empty())
        } else {
            (true, seq![BrakeAction::Send(MotorMessage::QuickStop), BrakeAction::SolenoidLow])
        },
        BrakingDecision::Brake => if engaged {
            (true, Seq::empty())
        } else {
            (
                true,
                seq![
                    BrakeAction::Send(MotorMessage::QuickStop),
                    BrakeAction::Send(MotorMessage::Shutdown),
                    BrakeAction::SolenoidLow,
                ],
            )
        },
        BrakingDecision::Wait | BrakingDecision::Release => (engaged, Seq::empty()),
    }
}

/// The latch and all actions of the braking loop over a run of decisions,
/// from the given latch state.
pub open spec fn braking_run(engaged: bool, ds: Seq<BrakingDecision>) -> (bool, Seq<BrakeAction>)
    decreases ds.len(),
{
    if ds.len() == 0 {
        (engaged, Seq::empty())
    } else {
        let (next, acts) = braking_transition(engaged, ds[0]);
        let (last, rest) = braking_run(next, ds.drop_first());
        (last, acts + rest)
    }
}

/// The braking loop's start: not engaged, and the solenoid driven high.
pub fn braking_start() -> (r: (bool, Vec<BrakeAction>))
    ensures
        (r.0, r.1@) == braking_start_state(),
{
    let mut actions: Vec<BrakeAction> = Vec::new();
    actions.push(BrakeAction::SolenoidHigh);
    assert(actions@ =~= braking_start_state().1);
    (false, actions)
}

/// The braking loop's next latch state and actions for a decision.
pub fn braking_step(engaged: bool, decision: BrakingDecision) -> (r: (bool, Vec<BrakeAction>))
    ensures
        (r.0, r.1@) == braking_transition(engaged, decision),
{
    let mut actions: Vec<BrakeAction> = Vec::new();
    let next = match decision {
        BrakingDecision::DataTimeout | BrakingDecision::LostPosition => {
            if !engaged {
                actions.push(BrakeAction::Send(MotorMessage::QuickStop));
                actions.push(BrakeAction::SolenoidLow);
            }
            true
        },
        BrakingDecision::Brake => {
            if !engaged {
                actions.push(BrakeAction::Send(MotorMessage::QuickStop));
                actions.push(BrakeAction::Send(MotorMessage::Shutdown));
                actions.push(BrakeAction::SolenoidLow);
            }
            true
        },
        BrakingDecision::Wait | BrakingDecision::Release => engaged,
    };
    assert(actions@ =~= braking_transition(engaged, decision).1);
    (next, actions)
}

/// The brakes latch: once engaged they stay engaged whatever follows, the
/// solenoid is never driven high again, and the drive is stopped at most once.
pub proof fn lemma_brakes_latch(engaged: bool, d: BrakingDecision)
    ensures
        engaged ==> braking_transition(engaged, d).0,
        engaged ==> braking_transition(engaged, d).1.len() == 0,
        !braking_transition(engaged, d).1.contains(BrakeAction::SolenoidHigh),
{
    let acts = braking_transition(engaged, d).1;
    if acts.contains(BrakeAction::SolenoidHigh) {
        let i = choose|i: int| 0 <= i < acts.len() && acts[i] == BrakeAction::SolenoidHigh;
        assert(acts[i] == BrakeAction::SolenoidHigh);
    }
}

/// Over any run of decisions the brakes, once engaged, stay engaged and no
/// action follows; and no decision ever drives the solenoid high, so after
/// the start the brakes are never released.
pub proof fn lemma_brakes_latch_run(engaged: bool, ds: Seq<BrakingDecision>)
    ensures
        engaged ==> braking_run(engaged, ds).0,
        engaged ==> braking_run(engaged, ds).1.len() == 0,
        !braking_run(engaged, ds).1.contains(BrakeAction::SolenoidHigh),
    decreases ds.len(),
{
    if ds.len() > 0 {
        let (next, acts) = braking_transition(engaged, ds[0]);
        lemma_brakes_latch(engaged, ds[0]);
        lemma_brakes_latch_run(next, ds.drop_first());
        let rest = braking_run(next, ds.drop_first()).1;
        let all = acts + rest;
        if all.contains(BrakeAction::SolenoidHigh) {
            let i = choose|i: int| 0 <= i < all.len() && all[i] == BrakeAction::SolenoidHigh;
            if i < acts.len() {
                assert(acts[i] == BrakeAction::SolenoidHigh);
            } else {
                assert(rest[i - acts.len()] == BrakeAction::SolenoidHigh);
            }
        }
    }
}

} // verus!
