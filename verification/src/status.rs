//! The charger's status, as read from the JSON object it reports.

use vstd::prelude::*;
use crate::json::{number_of, Json};

verus! {

/// What the car at the charger is doing.
#[derive(Debug, Clone, Copy, PartialEq, Eq, Structural)]
pub enum ChargingStatus {
    Ready,
    Charging,
    Waiting,
    Finished,
}

impl ChargingStatus {
    /// The state that the code `car` stands for.
    pub open spec fn of_car(car: u8) -> Option<ChargingStatus> {
        if car == 1 {
            Some(ChargingStatus::Ready)
        } else if car == 2 {
            Some(ChargingStatus::Charging)
        } else if car == 3 {
            Some(ChargingStatus::Waiting)
        } else if car == 4 {
            Some(ChargingStatus::Finished)
        } else {
            None
        }
    }

    /// Reads the state code of the status: 1 to 4; any other is none.
    pub fn from_car(car: u8) -> (r: Option<Self>)
        ensures
            r == Self::of_car(car),
    {
        match car {
            1 => Some(ChargingStatus::Ready),
            2 => Some(ChargingStatus::Charging),
            3 => Some(ChargingStatus::Waiting),
            4 => Some(ChargingStatus::Finished),
            _ => None,
        }
    }
}

/// A snapshot of the charger.
#[derive(Debug, Clone, Copy, PartialEq, Eq, Structural)]
pub struct GoEStatus {
    pub charging_status: ChargingStatus,
    /// The commanded current, in ampere.
    pub ampere: u8,
    /// The power drawn by the car, in watts.
    pub total_power: u16,
    pub is_charging_allowed: bool,
    /// 1 or 3.
    pub phases: u8,
}

/// The index of the total power in the array `nrg`.
pub const TOTAL_POWER_INDEX: usize = 11;

/// The number of phases that the phase field `pha` tells of: 3 where its top
/// five bits are `00111`, else 1.
pub open spec fn phases_of(pha: u8) -> u8 {
    if pha & 0xf8 == 0x38 {
        3
    } else {
        1
    }
}

/// Tells the number of phases from the phase field.
pub fn phases_from(pha: u8) -> (r: u8)
    ensures
        r == phases_of(pha),
        r == 3 || r == 1,
        r == 3 <==> 0x38 <= pha <= 0x3f,
{
    assert((pha & 0xf8 == 0x38) <==> (0x38 <= pha <= 0x3f)) by (bit_vector);
    if (pha & 0xf8) == 0x38 {
        3
    } else {
        1
    }
}

/// The low eight bits of a number.
pub open spec fn low_u8(n: u64) -> u8 {
    (n % 0x100) as u8
}

/// The low sixteen bits of a number.
pub open spec fn low_u16(n: u64) -> u16 {
    (n % 0x1_0000) as u16
}

/// The number under the name `key` in an object.
pub open spec fn number_member(json: Json, key: Seq<char>) -> Option<u64> {
    match json.spec_get(key) {
        Some(value) => number_of(value),
        None => None,
    }
}

/// The total power reported in an object: entry 11 of its array `nrg`.
pub open spec fn reported_power(json: Json) -> Option<u64> {
    match json.spec_get("nrg"@) {
        Some(Json::Array(entries)) => if entries@.len() > TOTAL_POWER_INDEX {
            number_of(entries@[TOTAL_POWER_INDEX as int])
        } else {
            None
        },
        _ => None,
    }
}

/// The status that a JSON value reports. It is an object with the numbers
/// `car`, `amp`, `pha` and `alw`, each a JSON number or a text that spells
/// one, and an array `nrg` whose entry 11 is such a number: the total power
/// in units of ten watts. Of each number the low bits that fit its field
/// count. The state code is 1 to 4, and the power in watts fits 16 bits.
pub open spec fn status_of(json: Json) -> Option<GoEStatus> {
    match (
        number_member(json, "car"@),
        number_member(json, "amp"@),
        number_member(json, "pha"@),
        number_member(json, "alw"@),
        reported_power(json),
    ) {
        (Some(car), Some(amp), Some(pha), Some(alw), Some(power)) => {
            match ChargingStatus::of_car(low_u8(car)) {
                Some(charging_status) => if low_u16(power) * 10 <= u16::MAX {
                    Some(
                        GoEStatus {
                            charging_status,
                            ampere: low_u8(amp),
                            total_power: (low_u16(power) * 10) as u16,
                            is_charging_allowed: low_u8(alw) > 0,
                            phases: phases_of(low_u8(pha)),
                        },
                    )
                } else {
                    None
                },
                None => None,
            }
        },
        _ => None,
    }
}

fn get_num(json: &Json, key: &str) -> (r: Option<u64>)
    ensures
        r == number_member(*json, key@),
{
    match json.get(key) {
        Some(value) => value.as_number(),
        None => None,
    }
}

fn get_power(json: &Json) -> (r: Option<u64>)
    ensures
        r == reported_power(*json),
{
    match json.get("nrg") {
        Some(Json::Array(entries)) => {
            if entries.len() > TOTAL_POWER_INDEX {
                entries[TOTAL_POWER_INDEX].as_number()
            } else {
                None
            }
        },
        _ => None,
    }
}

impl GoEStatus {
    /// Reads the status from the JSON value that the charger reports.
    pub fn from_json(json: &Json) -> (r: Option<Self>)
        ensures
            r == status_of(*json),
    {
        let car: u8 = (get_num(json, "car")? % 0x100) as u8;
        let amp: u8 = (get_num(json, "amp")? % 0x100) as u8;
        let pha: u8 = (get_num(json, "pha")? % 0x100) as u8;
        let alw: u8 = (get_num(json, "alw")? % 0x100) as u8;
        let ptot: u16 = (get_power(json)? % 0x1_0000) as u16;
        let charging_status = ChargingStatus::from_car(car)?;
        if ptot > 6553 {
            return None;
        }
        Some(
            GoEStatus {
                charging_status,
                ampere: amp,
                total_power: ptot * 10,
                is_charging_allowed: alw > 0,
                phases: phases_from(pha),
            },
        )
    }
}

} // verus!
