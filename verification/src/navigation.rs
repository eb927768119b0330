//! Navigation data that the motor controller board receives: the merged
//! kinematics, and the payloads of the navigation frames.
use vstd::bytes::{spec_u32_from_le_bytes, u32_from_le_bytes};
use crate::motor::MotorMessage;
use vstd::prelude::*;

verus! {

/// The latest known kinematics of the pod. A field is `None` until a frame
/// has carried it. The quantity type is the caller's: the boards keep
/// metres and seconds as floats.
#[derive(Clone, Copy, Default, Debug, PartialEq)]
pub struct NavKinematics<T> {
    pub position_m: Option<T>,
    pub velocity_mps: Option<T>,
    pub accel_mps2: Option<T>,
    pub target_position_m: Option<T>,
}

/// The newer value where there is one, else the older.
pub open spec fn prefer<T>(newer: Option<T>, older: Option<T>) -> Option<T> {
    match newer {
        Some(v) => Some(v),
        None => older,
    }
}

/// The kinematics `k` updated by `update`: each field takes the update's
/// value where the update has one.
pub open spec fn merged<T>(k: NavKinematics<T>, update: NavKinematics<T>) -> NavKinematics<T> {
    NavKinematics {
        position_m: prefer(update.position_m, k.position_m),
        velocity_mps: prefer(update.velocity_mps, k.velocity_mps),
        accel_mps2: prefer(update.accel_mps2, k.accel_mps2),
        target_position_m: prefer(update.target_position_m, k.target_position_m),
    }
}

/// Kinematics with no field known.
pub open spec fn unknown_kinematics<T>() -> NavKinematics<T> {
    NavKinematics {
        position_m: None,
        velocity_mps: None,
        accel_mps2: None,
        target_position_m: None,
    }
}

fn prefer_value<T: Copy>(newer: Option<T>, older: Option<T>) -> (r: Option<T>)
    ensures
        r == prefer(newer, older),
{
    match newer {
        Some(v) => Some(v),
        None => older,
    }
}

impl<T: Copy> NavKinematics<T> {
    /// Updates the kinematics with a newer, partial reading: each field
    /// takes the update's value where the update has one.
    pub fn merge(self, update: NavKinematics<T>) -> (r: NavKinematics<T>)
        ensures
            r == merged(self, update),
    {
        NavKinematics {
            position_m: prefer_value(update.position_m, self.position_m),
            velocity_mps: prefer_value(update.velocity_mps, self.velocity_mps),
            accel_mps2: prefer_value(update.accel_mps2, self.accel_mps2),
            target_position_m: prefer_value(update.target_position_m, self.target_position_m),
        }
    }
}

/// An update that carries nothing changes nothing.
pub proof fn lemma_merge_unknown_is_identity<T>(k: NavKinematics<T>)
    ensures
        merged(k, unknown_kinematics()) == k,
{
}

/// Merging updates one after the other is merging their merge: the order
/// of application is all that matters, not the grouping.
pub proof fn lemma_merge_associative<T>(
    k: NavKinematics<T>,
    a: NavKinematics<T>,
    b: NavKinematics<T>,
)
    ensures
        merged(merged(k, a), b) == merged(k, merged(a, b)),
{
}

/// Receiving the same update twice is receiving it once.
pub proof fn lemma_merge_idempotent<T>(k: NavKinematics<T>, update: NavKinematics<T>)
    ensures
        merged(merged(k, update), update) == merged(k, update),
{
}

/// A field that the update carries is the update's after the merge; one
/// it lacks keeps its value.
pub proof fn lemma_merge_prefers_update<T>(k: NavKinematics<T>, update: NavKinematics<T>)
    ensures
        update.position_m is Some ==> merged(k, update).position_m == update.position_m,
        update.position_m is None ==> merged(k, update).position_m == k.position_m,
        update.velocity_mps is Some ==> merged(k, update).velocity_mps == update.velocity_mps,
        update.velocity_mps is None ==> merged(k, update).velocity_mps == k.velocity_mps,
        update.accel_mps2 is Some ==> merged(k, update).accel_mps2 == update.accel_mps2,
        update.accel_mps2 is None ==> merged(k, update).accel_mps2 == k.accel_mps2,
        update.target_position_m is Some ==> merged(k, update).target_position_m
            == update.target_position_m,
        update.target_position_m is None ==> merged(k, update).target_position_m
            == k.target_position_m,
{
}

/// The little-endian `i32` in four bytes.
pub open spec fn le_i32(s: Seq<u8>) -> i32 {
    spec_u32_from_le_bytes(s) as i32
}

/// The two little-endian `i32` at the start of a navigation payload, or
/// `None` for a payload shorter than eight bytes.
pub open spec fn i32_pair(data: Seq<u8>) -> Option<(i32, i32)> {
    if data.len() < 8 {
        None
    } else {
        Some((le_i32(data.subrange(0, 4)), le_i32(data.subrange(4, 8))))
    }
}

fn decode_i32_pair(data: &[u8]) -> (r: Option<(i32, i32)>)
    ensures
        r == i32_pair(data@),
{
    if data.len() < 8 {
        return None;
    }
    let a = u32_from_le_bytes(&data[0..4]) as i32;
    let b = u32_from_le_bytes(&data[4..8]) as i32;
    Some((a, b))
}

/// The speed in mm/s and the acceleration in mm/s² of a speed frame, or
/// `None` for a payload shorter than eight bytes.
pub fn decode_speed_accel_mmps(data: &[u8]) -> (r: Option<(i32, i32)>)
    ensures
        r == i32_pair(data@),
{
    decode_i32_pair(data)
}

/// The position and the target position in mm of a position frame, or
/// `None` for a payload shorter than eight bytes.
pub fn decode_position_target_mm(data: &[u8]) -> (r: Option<(i32, i32)>)
    ensures
        r == i32_pair(data@),
{
    decode_i32_pair(data)
}


/// A command frame from the navigation board.
#[derive(Clone, Copy, PartialEq, Eq, Structural, Debug)]
pub enum NavCommand {
    /// The frame has no payload.
    Empty,
    StartDrive,
    Shutdown,
    QuickStop,
    SwitchOn,
    /// Set the drive frequency in Hz.
    SetFrequency(u32),
    /// A frequency command without its four bytes.
    MissingFrequency,
    /// An unknown command byte.
    Unknown(u8),
}

/// The command of a navigation command frame.
pub open spec fn nav_command_of(data: Seq<u8>) -> NavCommand {
    if data.len() == 0 {
        NavCommand::Empty
    } else if data[0] == 0x01 {
        NavCommand::StartDrive
    } else if data[0] == 0x02 {
        NavCommand::Shutdown
    } else if data[0] == 0x03 {
        NavCommand::QuickStop
    } else if data[0] == 0x04 {
        NavCommand::SwitchOn
    } else if data[0] == 0x05 {
        if data.len() < 5 {
            NavCommand::MissingFrequency
        } else {
            NavCommand::SetFrequency(spec_u32_from_le_bytes(data.subrange(1, 5)))
        }
    } else {
        NavCommand::Unknown(data[0])
    }
}

/// Reads a navigation command frame.
pub fn decode_nav_command(data: &[u8]) -> (r: NavCommand)
    ensures
        r == nav_command_of(data@),
{
    if data.len() == 0 {
        return NavCommand::Empty;
    }
    match data[0] {
        0x01 => NavCommand::StartDrive,
        0x02 => NavCommand::Shutdown,
        0x03 => NavCommand::QuickStop,
        0x04 => NavCommand::SwitchOn,
        0x05 => {
            if data.len() < 5 {
                NavCommand::MissingFrequency
            } else {
                NavCommand::SetFrequency(u32_from_le_bytes(&data[1..5]))
            }
        },
        other => NavCommand::Unknown(other),
    }
}

/// What happens when the motor controller's queue refuses a command.
#[derive(Clone, Copy, PartialEq, Eq, Structural, Debug)]
pub enum OnQueueFailure {
    /// The result is not looked at.
    Ignore,
    /// Log the failure.
    Log,
    /// Raise the emergency and stop the board.
    Emergency,
}

/// The motor controller message of a navigation command and what a refusal
/// to queue it leads to: stopping commands that cannot be queued are an
/// emergency.
pub open spec fn nav_command_message(c: NavCommand) -> Option<(MotorMessage, OnQueueFailure)> {
    match c {
        NavCommand::StartDrive => Some((MotorMessage::StartDrive, OnQueueFailure::Log)),
        NavCommand::Shutdown => Some((MotorMessage::Shutdown, OnQueueFailure::Emergency)),
        NavCommand::QuickStop => Some((MotorMessage::QuickStop, OnQueueFailure::Emergency)),
        NavCommand::SwitchOn => Some((MotorMessage::SwitchOn, OnQueueFailure::Log)),
        NavCommand::SetFrequency(f) => Some((MotorMessage::SetFrequency(f), OnQueueFailure::Ignore)),
        _ => None,
    }
}

/// The motor controller message of a navigation command, if any, and what
/// a refusal to queue it leads to.
pub fn motor_message_for_nav_command(c: &NavCommand) -> (r: Option<(MotorMessage, OnQueueFailure)>)
    ensures
        r == nav_command_message(*c),
{
    match c {
        NavCommand::StartDrive => Some((MotorMessage::StartDrive, OnQueueFailure::Log)),
        NavCommand::Shutdown => Some((MotorMessage::Shutdown, OnQueueFailure::Emergency)),
        NavCommand::QuickStop => Some((MotorMessage::QuickStop, OnQueueFailure::Emergency)),
        NavCommand::SwitchOn => Some((MotorMessage::SwitchOn, OnQueueFailure::Log)),
        NavCommand::SetFrequency(f) => Some((MotorMessage::SetFrequency(*f), OnQueueFailure::Ignore)),
        _ => None,
    }
}

/// A navigation command frame reaches the motor controller as the message
/// its command byte names, whatever follows that byte: 0x01 starts the
/// drive, 0x02 shuts it down, 0x03 quick-stops it, 0x04 switches it on, and
/// 0x05 with four more bytes sets the frequency they hold little-endian.
/// Only a stopping command that cannot be queued is an emergency; a failed
/// start or switch-on is logged, a failed frequency change ignored. Any
/// other frame sends nothing.
pub proof fn lemma_nav_frame_reaches_motor(data: Seq<u8>)
    ensures
        data.len() >= 1 && data[0] == 0x01 ==> nav_command_message(nav_command_of(data)) == Some(
            (MotorMessage::StartDrive, OnQueueFailure::Log),
        ),
        data.len() >= 1 && data[0] == 0x02 ==> nav_command_message(nav_command_of(data)) == Some(
            (MotorMessage::Shutdown, OnQueueFailure::Emergency),
        ),
        data.len() >= 1 && data[0] == 0x03 ==> nav_command_message(nav_command_of(data)) == Some(
            (MotorMessage::QuickStop, OnQueueFailure::Emergency),
        ),
        data.len() >= 1 && data[0] == 0x04 ==> nav_command_message(nav_command_of(data)) == Some(
            (MotorMessage::SwitchOn, OnQueueFailure::Log),
        ),
        data.len() >= 5 && data[0] == 0x05 ==> nav_command_message(nav_command_of(data)) == Some(
            (
                MotorMessage::SetFrequency(spec_u32_from_le_bytes(data.subrange(1, 5))),
                OnQueueFailure::Ignore,
            ),
        ),
        (data.len() == 0 || !(1 <= data[0] <= 5) || (data[0] == 0x05 && data.len() < 5))
            ==> nav_command_message(nav_command_of(data)) is None,
{
}

/// Different navigation commands reach the motor controller as different
/// messages, so each message comes from the one command named like it; and
/// a failed queueing is an emergency exactly for the stopping messages.
pub proof fn lemma_nav_command_message_injective(c1: NavCommand, c2: NavCommand)
    ensures
        nav_command_message(c1) is Some && nav_command_message(c2) is Some && nav_command_message(
            c1,
        ).unwrap().0 == nav_command_message(c2).unwrap().0 ==> c1 == c2,
        nav_command_message(c1) matches Some((m, f)) ==> (f == OnQueueFailure::Emergency <==> (m
            == MotorMessage::Shutdown || m == MotorMessage::QuickStop)),
{
}

/// The receive errors tolerated on the navigation bus before the board
/// gives up.
pub const CAN_ERROR_THRESHOLD: u32 = 10;

/// Counts a receive error on the navigation bus, given the errors counted
/// before it. Returns the new count and whether the threshold was already
/// reached, which makes this error an emergency. The count wraps.
pub fn record_can_error(previous: u32) -> (r: (u32, bool))
    ensures
        r.0 == (if previous == u32::MAX { 0 } else { previous + 1 }),
        r.1 == (previous >= CAN_ERROR_THRESHOLD),
{
    let count = if previous == u32::MAX {
        0
    } else {
        previous + 1
    };
    (count, previous >= CAN_ERROR_THRESHOLD)
}

} // verus!
