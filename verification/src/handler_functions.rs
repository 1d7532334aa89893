use vstd::prelude::*;

use crate::context::Context;
use crate::errors::{ControllerError, ErrorKind};
use crate::payload::{
    decode_charging_event, decode_start_trip_event, spec_energy_payload, spec_rate_payload,
};
use crate::trip::{trip_duration_s, TIME_IN_SECONDS_PER_WATT};

verus! {

/// Applies a start-charging command: decodes the requested rate and, under
/// the session lock, asks the session to start charging at it. The battery
/// is consulted through the battery lock inside the transition; a rejection
/// leaves both session and battery unchanged.
pub fn handle_start_charging(data: &[u8], context: &Context) -> (r: Result<(), ControllerError>)
    ensures
        spec_rate_payload(data@) is None ==> (r matches Err(e) && e.kind
            == ErrorKind::InvalidData),
        spec_rate_payload(data@) is Some ==> (r matches Err(e) ==> e.kind
            == ErrorKind::InvalidInput),
{
    let event = match decode_charging_event(data) {
        Ok(event) => event,
        Err(e) => {
            return Err(e);
        },
    };
    let (mut controller, write_handle) = context.charging_controller_mutex.acquire_write();
    let r = controller.start_charging(event.charging_speed_w);
    write_handle.release_write(controller);
    r
}

/// Applies a change-charging-speed command: decodes the new rate and, under
/// the session lock, asks the session to adopt it.
pub fn handle_change_charging_speed(data: &[u8], context: &Context) -> (r: Result<
    (),
    ControllerError,
>)
    ensures
        spec_rate_payload(data@) is None ==> (r matches Err(e) && e.kind
            == ErrorKind::InvalidData),
        spec_rate_payload(data@) is Some ==> (r matches Err(e) ==> e.kind
            == ErrorKind::InvalidInput),
{
    let event = match decode_charging_event(data) {
        Ok(event) => event,
        Err(e) => {
            return Err(e);
        },
    };
    let (mut controller, write_handle) = context.charging_controller_mutex.acquire_write();
    let r = controller.change_charging_speed(event.charging_speed_w);
    write_handle.release_write(controller);
    r
}

/// Applies a stop-charging command under the session lock. The payload is
/// ignored, as the command carries none.
pub fn handle_stop_charging(_data: &[u8], context: &Context) -> (r: Result<(), ControllerError>)
    ensures
        r matches Err(e) ==> e.kind == ErrorKind::InvalidInput && e.message@
            == "Not currently charging"@,
{
    let (mut controller, write_handle) = context.charging_controller_mutex.acquire_write();
    let r = controller.stop_charging();
    write_handle.release_write(controller);
    r
}

/// Plans a trip: decodes the declared energy usage and returns how long the
/// drive signal must stay asserted. Performing the actuation — and any
/// debit of the battery's stored energy — is left to the embedding program;
/// this handler does not touch the session or the battery.
pub fn handle_start_trip(data: &[u8], _context: &Context) -> (r: Result<u64, ControllerError>)
    ensures
        match spec_energy_payload(data@) {
            Some(v) => r matches Ok(d) && d == v * TIME_IN_SECONDS_PER_WATT,
            None => r matches Err(e) && e.kind == ErrorKind::InvalidData,
        },
{
    let event = match decode_start_trip_event(data) {
        Ok(event) => event,
        Err(e) => {
            return Err(e);
        },
    };
    Ok(trip_duration_s(event.energy_usage_w))
}

} // verus!
