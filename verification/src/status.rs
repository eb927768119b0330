//! The safety statuses that the telemetry board publishes every second:
//! the IMD, the two HVAL lights and the brake clamp.
use vstd::prelude::*;

verus! {

/// A light off, or a system in fault.
pub const STATUS_LOW_OR_FAULT: u8 = 0;

/// A light on, or a system healthy.
pub const STATUS_HIGH_OR_HEALTHY: u8 = 1;

/// Nothing reported yet.
pub const STATUS_UNKNOWN: u8 = 2;

/// The latest safety statuses, each one of the three status values.
#[derive(Clone, Copy, PartialEq, Eq, Structural, Debug)]
pub struct SafetyStatuses {
    pub imd: u8,
    pub hval_red: u8,
    pub hval_green: u8,
    pub brake_clamp: u8,
}

/// The status value of a flag.
pub open spec fn status_of(value: bool) -> u8 {
    if value {
        STATUS_HIGH_OR_HEALTHY
    } else {
        STATUS_LOW_OR_FAULT
    }
}

impl SafetyStatuses {
    /// Every status unknown.
    pub fn new() -> (s: Self)
        ensures
            s == (SafetyStatuses {
                imd: STATUS_UNKNOWN,
                hval_red: STATUS_UNKNOWN,
                hval_green: STATUS_UNKNOWN,
                brake_clamp: STATUS_UNKNOWN,
            }),
    {
        SafetyStatuses {
            imd: STATUS_UNKNOWN,
            hval_red: STATUS_UNKNOWN,
            hval_green: STATUS_UNKNOWN,
            brake_clamp: STATUS_UNKNOWN,
        }
    }
}

/// The status value of a flag: healthy or on for `true`.
pub fn bool_to_status(value: bool) -> (status: u8)
    ensures
        status == status_of(value),
{
    if value {
        STATUS_HIGH_OR_HEALTHY
    } else {
        STATUS_LOW_OR_FAULT
    }
}

/// Records the IMD's health.
pub fn set_imd_status(statuses: &mut SafetyStatuses, healthy: bool)
    ensures
        *final(statuses) == (SafetyStatuses { imd: status_of(healthy), ..*old(statuses) }),
{
    statuses.imd = bool_to_status(healthy);
}

/// Records the HVAL lights that were read; a light not read keeps its
/// status.
pub fn set_hval_status(statuses: &mut SafetyStatuses, red: Option<bool>, green: Option<bool>)
    ensures
        final(statuses).imd == old(statuses).imd,
        final(statuses).brake_clamp == old(statuses).brake_clamp,
        final(statuses).hval_red == (match red {
            Some(active) => status_of(active),
            None => old(statuses).hval_red,
        }),
        final(statuses).hval_green == (match green {
            Some(active) => status_of(active),
            None => old(statuses).hval_green,
        }),
{
    if let Some(active) = red {
        statuses.hval_red = bool_to_status(active);
    }
    if let Some(active) = green {
        statuses.hval_green = bool_to_status(active);
    }
}

/// Records whether the brakes are clamped.
pub fn set_brake_clamp_status(statuses: &mut SafetyStatuses, clamped: bool)
    ensures
        *final(statuses) == (SafetyStatuses { brake_clamp: status_of(clamped), ..*old(statuses) }),
{
    statuses.brake_clamp = bool_to_status(clamped);
}

/// The text published for a status value.
pub open spec fn status_text(value: u8) -> Seq<char> {
    if value == STATUS_LOW_OR_FAULT {
        "0"@
    } else if value == STATUS_HIGH_OR_HEALTHY {
        "1"@
    } else {
        "2"@
    }
}

/// The MQTT payload of a status value: "0" and "1" for the two known
/// values, "2" for anything else.
pub fn status_payload(value: u8) -> (s: &'static str)
    ensures
        s@ == status_text(value),
{
    if value == STATUS_LOW_OR_FAULT {
        "0"
    } else if value == STATUS_HIGH_OR_HEALTHY {
        "1"
    } else {
        "2"
    }
}

/// A topic of the safety statuses.
#[derive(Clone, Copy, PartialEq, Eq, Structural, Debug)]
pub enum SafetyTopic {
    ImdStatus,
    HvalRedStatus,
    HvalGreenStatus,
    BrakeClampStatus,
}

/// The retained messages published each second, in order: the IMD, the
/// red light, the green light, the brake clamp.
pub fn safety_status_report(statuses: &SafetyStatuses) -> (r: Vec<(SafetyTopic, &'static str)>)
    ensures
        r@.len() == 4,
        r@[0].0 == SafetyTopic::ImdStatus && r@[0].1@ == status_text(statuses.imd),
        r@[1].0 == SafetyTopic::HvalRedStatus && r@[1].1@ == status_text(statuses.hval_red),
        r@[2].0 == SafetyTopic::HvalGreenStatus && r@[2].1@ == status_text(statuses.hval_green),
        r@[3].0 == SafetyTopic::BrakeClampStatus && r@[3].1@ == status_text(statuses.brake_clamp),
{
    let mut r = Vec::new();
    r.push((SafetyTopic::ImdStatus, status_payload(statuses.imd)));
    r.push((SafetyTopic::HvalRedStatus, status_payload(statuses.hval_red)));
    r.push((SafetyTopic::HvalGreenStatus, status_payload(statuses.hval_green)));
    r.push((SafetyTopic::BrakeClampStatus, status_payload(statuses.brake_clamp)));
    r
}

/// A status that was set is published as "0" or "1", never as unknown;
/// one never set is published as "2".
pub proof fn lemma_set_status_is_published(value: bool)
    ensures
        status_text(status_of(value)) == (if value {
            "1"@
        } else {
            "0"@
        }),
        status_text(STATUS_UNKNOWN) == "2"@,
{
}

} // verus!
