use vstd::prelude::*;

use crate::errors::{ControllerError, ErrorKind};

verus! {

/// The `u64` value of the named top-level field of the JSON document held in
/// `data`: `None` when the bytes are not a JSON document, when the document
/// is not an object with that field, or when the field's value is not a
/// number representable as `u64`. What this is on given bytes is decided by
/// serde_json alone; it depends on the bytes and the field name only.
pub uninterp spec fn u64_field_of(data: Seq<u8>, field: Seq<char>) -> Option<u64>;

/// Relies on serde_json: `from_slice::<Value>` parses the payload,
/// `Value::get` looks the field up, `Value::as_u64` reads its number.
/// The result is a function of the payload bytes and the field name alone.
#[verifier::external_body]
fn decode_u64_field(data: &[u8], field: &str) -> (r: Option<u64>)
    ensures
        r == u64_field_of(data@, field@),
{
    match serde_json::from_slice::<serde_json::Value>(data) {
        Ok(document) => match document.get(field) {
            Some(value) => value.as_u64(),
            None => None,
        },
        Err(_) => None,
    }
}

/// The charging rate carried by a start-charging or change-charging-speed
/// payload, if the payload decodes to one that fits the rate's type.
pub open spec fn spec_rate_payload(data: Seq<u8>) -> Option<u32> {
    match u64_field_of(data, "charging_speed_w"@) {
        Some(v) => if v <= u32::MAX {
            Some(v as u32)
        } else {
            None
        },
        None => None,
    }
}

/// The declared energy usage carried by a start-trip payload, if the payload
/// decodes to one that fits the field's type.
pub open spec fn spec_energy_payload(data: Seq<u8>) -> Option<u32> {
    match u64_field_of(data, "energy_usage_w"@) {
        Some(v) => if v <= u32::MAX {
            Some(v as u32)
        } else {
            None
        },
        None => None,
    }
}

/// Payload schema of the start-charging and change-charging-speed commands:
/// a JSON object whose `charging_speed_w` field is the requested power in
/// watts. Unknown fields are ignored.
#[derive(Clone, Copy, Debug, PartialEq, Eq, Structural)]
pub struct ChargingEventData {
    pub charging_speed_w: u32,
}

/// Payload schema of the start-trip command: a JSON object whose
/// `energy_usage_w` field is the declared energy draw in watts.
#[derive(Clone, Copy, Debug, PartialEq, Eq, Structural)]
pub struct StartTripEventData {
    pub energy_usage_w: u32,
}

pub fn decode_charging_event(data: &[u8]) -> (r: Result<ChargingEventData, ControllerError>)
    ensures
        match spec_rate_payload(data@) {
            Some(v) => r matches Ok(d) && d == (ChargingEventData { charging_speed_w: v }),
            None => r matches Err(e) && e.kind == ErrorKind::InvalidData
                && e.message@ == "Payload does not hold a charging_speed_w value"@,
        },
{
    match decode_u64_field(data, "charging_speed_w") {
        Some(v) => if v <= u32::MAX as u64 {
            Ok(ChargingEventData { charging_speed_w: v as u32 })
        } else {
            Err(ControllerError::invalid_data("Payload does not hold a charging_speed_w value"))
        },
        None => Err(ControllerError::invalid_data("Payload does not hold a charging_speed_w value")),
    }
}

pub fn decode_start_trip_event(data: &[u8]) -> (r: Result<StartTripEventData, ControllerError>)
    ensures
        match spec_energy_payload(data@) {
            Some(v) => r matches Ok(d) && d == (StartTripEventData { energy_usage_w: v }),
            None => r matches Err(e) && e.kind == ErrorKind::InvalidData
                && e.message@ == "Payload does not hold an energy_usage_w value"@,
        },
{
    match decode_u64_field(data, "energy_usage_w") {
        Some(v) => if v <= u32::MAX as u64 {
            Ok(StartTripEventData { energy_usage_w: v as u32 })
        } else {
            Err(ControllerError::invalid_data("Payload does not hold an energy_usage_w value"))
        },
        None => Err(ControllerError::invalid_data("Payload does not hold an energy_usage_w value")),
    }
}

} // verus!
