use vstd::prelude::*;
use vstd::string::StrSliceExecFns;

use crate::context::Context;
use crate::errors::{ControllerError, ErrorKind};
use crate::handler_functions::{
    handle_change_charging_speed, handle_start_charging, handle_start_trip, handle_stop_charging,
};
use crate::payload::{spec_energy_payload, spec_rate_payload};
use crate::trip::TIME_IN_SECONDS_PER_WATT;

verus! {

broadcast use vstd::string::group_string_axioms;

/// What a dispatched command asks of the caller once it has been applied.
#[derive(Clone, Copy, Debug, PartialEq, Eq, Structural)]
pub enum DispatchOutcome {
    /// The command was applied to the session; nothing is left to do.
    Completed,
    /// The command plans a trip: the caller is to assert the drive signal
    /// for this many seconds, then deassert it.
    StartTrip { trip_duration_s: u64 },
}

/// Character-wise string comparison, so that routing can be stated over the
/// topic's character sequence.
fn str_eq(a: &str, b: &str) -> (r: bool)
    ensures
        r == (a@ == b@),
{
    let a_len = a.unicode_len();
    let b_len = b.unicode_len();
    if a_len != b_len {
        return false;
    }
    let mut i: usize = 0;
    while i < a_len
        invariant
            i <= a_len,
            a_len == a@.len(),
            b_len == b@.len(),
            a_len == b_len,
            forall|j: int| 0 <= j < i ==> a@[j] == b@[j],
        decreases a_len - i,
    {
        if a.get_char(i) != b.get_char(i) {
            return false;
        }
        i = i + 1;
    }
    proof {
        assert(a@ =~= b@);
    }
    true
}

/// Routes one inbound command to its session operation or trip plan.
///
/// The four recognised topics are dispatched as the table below states; any
/// other topic is rejected as `InvalidData` and changes nothing.
pub fn handle_event_implementation(topic: &str, data: &[u8], context: &Context) -> (r: Result<
    DispatchOutcome,
    ControllerError,
>)
    ensures
        topic@ == "/charging-controller/start-charging"@ ==> ({
            &&& (r matches Ok(o) ==> o == DispatchOutcome::Completed && spec_rate_payload(data@)
                is Some)
            &&& (spec_rate_payload(data@) is None ==> (r matches Err(e) && e.kind
                == ErrorKind::InvalidData))
            &&& (spec_rate_payload(data@) is Some ==> (r matches Err(e) ==> e.kind
                == ErrorKind::InvalidInput))
        }),
        topic@ == "/charging-controller/change-charging-speed"@ ==> ({
            &&& (r matches Ok(o) ==> o == DispatchOutcome::Completed && spec_rate_payload(data@)
                is Some)
            &&& (spec_rate_payload(data@) is None ==> (r matches Err(e) && e.kind
                == ErrorKind::InvalidData))
            &&& (spec_rate_payload(data@) is Some ==> (r matches Err(e) ==> e.kind
                == ErrorKind::InvalidInput))
        }),
        topic@ == "/charging-controller/stop-charging"@ ==> ({
            &&& (r matches Ok(o) ==> o == DispatchOutcome::Completed)
            &&& (r matches Err(e) ==> e.kind == ErrorKind::InvalidInput && e.message@
                == "Not currently charging"@)
        }),
        topic@ == "/charging-controller/start-trip"@ ==> match spec_energy_payload(data@) {
            Some(v) => r matches Ok(o) && o matches DispatchOutcome::StartTrip { trip_duration_s }
                && trip_duration_s == v * TIME_IN_SECONDS_PER_WATT,
            None => r matches Err(e) && e.kind == ErrorKind::InvalidData,
        },
        topic@ != "/charging-controller/start-charging"@ && topic@
            != "/charging-controller/change-charging-speed"@ && topic@
            != "/charging-controller/stop-charging"@ && topic@
            != "/charging-controller/start-trip"@ ==> (r matches Err(e) && e.kind
            == ErrorKind::InvalidData && e.message@ == "Topic not available"@),
{
    proof {
        reveal_strlit("/charging-controller/start-charging");
        reveal_strlit("/charging-controller/change-charging-speed");
        reveal_strlit("/charging-controller/stop-charging");
        reveal_strlit("/charging-controller/start-trip");
        // The four topics differ (already in length), so at most one routing
        // clause applies to any call.
        assert("/charging-controller/start-charging"@.len() == 35);
        assert("/charging-controller/change-charging-speed"@.len() == 42);
        assert("/charging-controller/stop-charging"@.len() == 34);
        assert("/charging-controller/start-trip"@.len() == 31);
        assert("/charging-controller/start-charging"@
            != "/charging-controller/change-charging-speed"@);
        assert("/charging-controller/start-charging"@ != "/charging-controller/stop-charging"@);
        assert("/charging-controller/start-charging"@ != "/charging-controller/start-trip"@);
        assert("/charging-controller/change-charging-speed"@
            != "/charging-controller/stop-charging"@);
        assert("/charging-controller/change-charging-speed"@
            != "/charging-controller/start-trip"@);
        assert("/charging-controller/stop-charging"@ != "/charging-controller/start-trip"@);
    }
    if str_eq(topic, "/charging-controller/start-charging") {
        match handle_start_charging(data, context) {
            Ok(_) => Ok(DispatchOutcome::Completed),
            Err(e) => Err(e),
        }
    } else if str_eq(topic, "/charging-controller/change-charging-speed") {
        match handle_change_charging_speed(data, context) {
            Ok(_) => Ok(DispatchOutcome::Completed),
            Err(e) => Err(e),
        }
    } else if str_eq(topic, "/charging-controller/stop-charging") {
        match handle_stop_charging(data, context) {
            Ok(_) => Ok(DispatchOutcome::Completed),
            Err(e) => Err(e),
        }
    } else if str_eq(topic, "/charging-controller/start-trip") {
        match handle_start_trip(data, context) {
            Ok(duration) => Ok(DispatchOutcome::StartTrip { trip_duration_s: duration }),
            Err(e) => Err(e),
        }
    } else {
        Err(ControllerError::invalid_data("Topic not available"))
    }
}

} // verus!
