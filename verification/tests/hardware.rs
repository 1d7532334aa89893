use charge_station::errors::{ControllerError, ErrorKind};
use charge_station::tpl_potentiometer::TPLPotentiometer;

#[test]
fn potentiometer_keeps_bus_and_address() {
    let pot = TPLPotentiometer::new(7u8, 0x2E);
    assert_eq!(pot.i2c, 7);
    assert_eq!(pot.address, 0x2E);
    let copy = pot.clone();
    assert_eq!(copy.address, 0x2E);
}

#[test]
fn error_constructors_keep_kind_and_message() {
    let e = ControllerError::invalid_input("too fast");
    assert_eq!(e.kind, ErrorKind::InvalidInput);
    assert_eq!(e.message, "too fast");

    let e = ControllerError::invalid_data("not a payload");
    assert_eq!(e.kind, ErrorKind::InvalidData);
    assert_eq!(e.message, "not a payload");

    assert_ne!(ErrorKind::InvalidInput, ErrorKind::InvalidData);
}
