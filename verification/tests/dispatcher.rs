use charge_station::context::Context;
use charge_station::errors::ErrorKind;
use charge_station::handle_event_implementation::{handle_event_implementation, DispatchOutcome};
use charge_station::handler_functions::{
    handle_change_charging_speed, handle_start_charging, handle_start_trip, handle_stop_charging,
};
use charge_station::payload::{decode_charging_event, decode_start_trip_event};
use charge_station::trip::{trip_duration_s, TIME_IN_SECONDS_PER_WATT};

// A fresh context comes up with the car already connected, so charging
// commands are accepted right away.
fn fresh_context() -> Context {
    Context::new(3700, 0, 100).unwrap()
}

#[test]
fn decode_reads_the_rate_field() {
    let d = decode_charging_event(b"{\"charging_speed_w\": 50}").unwrap();
    assert_eq!(d.charging_speed_w, 50);
    // Unknown fields are ignored.
    let d = decode_charging_event(b"{\"other\": 1, \"charging_speed_w\": 80}").unwrap();
    assert_eq!(d.charging_speed_w, 80);
}

#[test]
fn decode_rejects_bad_payloads() {
    for bad in [
        &b"not json"[..],
        b"{}",
        b"{\"charging_speed_w\": \"fast\"}",
        b"{\"charging_speed_w\": -5}",
        b"{\"charging_speed_w\": 1.5}",
        b"{\"charging_speed_w\": 5000000000}",
        b"[50]",
        b"",
    ] {
        let e = decode_charging_event(bad).unwrap_err();
        assert_eq!(e.kind, ErrorKind::InvalidData);
    }
}

#[test]
fn decode_reads_the_energy_field() {
    let d = decode_start_trip_event(b"{\"energy_usage_w\": 7}").unwrap();
    assert_eq!(d.energy_usage_w, 7);
    let e = decode_start_trip_event(b"{\"charging_speed_w\": 7}").unwrap_err();
    assert_eq!(e.kind, ErrorKind::InvalidData);
}

#[test]
fn trip_duration_follows_the_fixed_conversion() {
    assert_eq!(TIME_IN_SECONDS_PER_WATT, 100);
    assert_eq!(trip_duration_s(0), 0);
    assert_eq!(trip_duration_s(7), 700);
    assert_eq!(trip_duration_s(u32::MAX), u32::MAX as u64 * 100);
}

#[test]
fn handler_starts_charging_from_a_payload() {
    let context = fresh_context();
    handle_start_charging(b"{\"charging_speed_w\": 50}", &context).unwrap();
    let e = handle_start_charging(b"{\"charging_speed_w\": 60}", &context).unwrap_err();
    assert_eq!(e.kind, ErrorKind::InvalidInput);
    assert_eq!(e.message, "Already charging");
}

#[test]
fn handler_rejects_a_rate_above_the_maximum() {
    let context = fresh_context();
    let e = handle_start_charging(b"{\"charging_speed_w\": 101}", &context).unwrap_err();
    assert_eq!(e.kind, ErrorKind::InvalidInput);
    assert_eq!(e.message, "Charging speed exceeds car's maximum charging speed");
}

#[test]
fn handler_changes_the_charging_speed() {
    let context = fresh_context();
    let e = handle_change_charging_speed(b"{\"charging_speed_w\": 30}", &context).unwrap_err();
    assert_eq!(e.message, "Not currently charging");
    handle_start_charging(b"{\"charging_speed_w\": 50}", &context).unwrap();
    handle_change_charging_speed(b"{\"charging_speed_w\": 30}", &context).unwrap();
}

#[test]
fn handler_stops_charging() {
    let context = fresh_context();
    let e = handle_stop_charging(b"", &context).unwrap_err();
    assert_eq!(e.kind, ErrorKind::InvalidInput);
    assert_eq!(e.message, "Not currently charging");
    handle_start_charging(b"{\"charging_speed_w\": 50}", &context).unwrap();
    handle_stop_charging(b"", &context).unwrap();
}

#[test]
fn handler_plans_a_trip() {
    let context = fresh_context();
    let duration_s = handle_start_trip(b"{\"energy_usage_w\": 3}", &context).unwrap();
    assert_eq!(duration_s, 300);
    let e = handle_start_trip(b"{}", &context).unwrap_err();
    assert_eq!(e.kind, ErrorKind::InvalidData);
}

#[test]
fn dispatcher_routes_the_four_topics() {
    let context = fresh_context();
    let r = handle_event_implementation(
        "/charging-controller/start-charging",
        b"{\"charging_speed_w\": 50}",
        &context,
    );
    assert_eq!(r.unwrap(), DispatchOutcome::Completed);

    let r = handle_event_implementation(
        "/charging-controller/change-charging-speed",
        b"{\"charging_speed_w\": 80}",
        &context,
    );
    assert_eq!(r.unwrap(), DispatchOutcome::Completed);

    let r = handle_event_implementation("/charging-controller/stop-charging", b"", &context);
    assert_eq!(r.unwrap(), DispatchOutcome::Completed);

    let r = handle_event_implementation(
        "/charging-controller/start-trip",
        b"{\"energy_usage_w\": 2}",
        &context,
    );
    assert_eq!(r.unwrap(), DispatchOutcome::StartTrip { trip_duration_s: 200 });
}

#[test]
fn dispatcher_rejects_an_unknown_topic() {
    let context = fresh_context();
    let e = handle_event_implementation("/charging-controller/reboot", b"{}", &context)
        .unwrap_err();
    assert_eq!(e.kind, ErrorKind::InvalidData);
    assert_eq!(e.message, "Topic not available");
    // A prefix of a known topic is not a known topic.
    let e = handle_event_implementation("/charging-controller/start", b"{}", &context)
        .unwrap_err();
    assert_eq!(e.kind, ErrorKind::InvalidData);
}

#[test]
fn dispatcher_reports_a_payload_fault_for_a_known_topic() {
    let context = fresh_context();
    let e = handle_event_implementation(
        "/charging-controller/start-charging",
        b"{\"speed\": 50}",
        &context,
    )
    .unwrap_err();
    assert_eq!(e.kind, ErrorKind::InvalidData);
    assert_eq!(e.message, "Payload does not hold a charging_speed_w value");
}
