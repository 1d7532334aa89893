use charge_station::context::Context;
use charge_station::errors::ErrorKind;
use charge_station::handler_functions::{handle_start_charging, handle_stop_charging};

// Battery reads through the coordinator always hand back one coherent
// snapshot: the construction-time fields are intact and the invariant holds,
// whichever write came last. (The verified reader-writer lock is what rules
// out a torn value under real concurrency; here its plumbing is exercised
// across many write/read rounds.)
#[test]
fn battery_reads_see_whole_snapshots_across_writes() {
    let context = Context::new(3700, 0, 100).unwrap();
    for round in 0..500u32 {
        let value = if round % 2 == 0 { 3700 } else { 0 };
        context.set_current_charge(value).unwrap();
        let car = context.read_car();
        assert_eq!(car.current_charge_wh, value);
        assert_eq!(car.charging_capacity_wh, 3700);
        assert_eq!(car.max_charging_speed_w, 100);
        assert!(car.current_charge_wh <= car.charging_capacity_wh);
    }
}

// The session lock serializes commands: once one start-charging command has
// won, every later one is turned away and the session state stays coherent.
#[test]
fn repeated_commands_are_applied_in_order() {
    let context = Context::new(3700, 0, 100).unwrap();
    handle_start_charging(b"{\"charging_speed_w\": 50}", &context).unwrap();
    for _ in 0..10 {
        let e = handle_start_charging(b"{\"charging_speed_w\": 50}", &context).unwrap_err();
        assert_eq!(e.kind, ErrorKind::InvalidInput);
        assert_eq!(e.message, "Already charging");
    }
    handle_stop_charging(b"", &context).unwrap();
    handle_start_charging(b"{\"charging_speed_w\": 60}", &context).unwrap();
}

// Battery writes go through the battery lock alone: a charge update does not
// need the session lock and still respects the capacity bound while a
// session is charging.
#[test]
fn battery_writes_run_independently_of_the_session() {
    let context = Context::new(3700, 0, 100).unwrap();
    handle_start_charging(b"{\"charging_speed_w\": 50}", &context).unwrap();
    context.set_current_charge(1850).unwrap();
    assert_eq!(context.read_car().current_charge_wh, 1850);
    let e = context.set_current_charge(4000).unwrap_err();
    assert_eq!(e.kind, ErrorKind::InvalidInput);
    assert_eq!(context.read_car().current_charge_wh, 1850);
}
