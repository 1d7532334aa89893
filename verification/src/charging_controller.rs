use std::sync::Arc;
use vstd::prelude::*;
use vstd::rwlock::{RwLock, RwLockPredicate};

use crate::car::Car;
use crate::errors::{ControllerError, ErrorKind};

verus! {

/// Invariant of the battery lock: whatever sits in the lock is a well-formed
/// battery whose construction-time fields (capacity, rate ceiling) are the
/// ones the lock was created with. Only the stored energy may differ between
/// two acquisitions.
pub struct CarPred {
    pub capacity_wh: u32,
    pub max_rate_w: u32,
}

impl RwLockPredicate<Car> for CarPred {
    open spec fn inv(self, car: Car) -> bool {
        &&& car.wf()
        &&& car.charging_capacity_wh == self.capacity_wh
        &&& car.max_charging_speed_w == self.max_rate_w
    }
}

/// The one shared battery instance: many concurrent readers (telemetry,
/// transition preconditions) or one exclusive writer (a charge update).
pub type SharedCar = Arc<RwLock<Car, CarPred>>;

/// The charging-session state machine for the one vehicle slot.
///
/// `Connected` and `Charging` carry a handle to the one shared battery, not a
/// copy of it; `Charging` additionally carries the commanded charging power.
pub enum ChargingController {
    Disconnected,
    Connected { car_rwlock: SharedCar },
    Charging { car_rwlock: SharedCar, charging_speed_w: u32 },
}

impl ChargingController {
    /// Session invariant: while charging, the commanded power never exceeds
    /// the rate ceiling the battery lock was created with.
    pub open spec fn wf(self) -> bool {
        match self {
            ChargingController::Charging { car_rwlock, charging_speed_w } =>
                charging_speed_w <= car_rwlock.pred().max_rate_w,
            _ => true,
        }
    }

    pub fn new() -> (r: Self)
        ensures
            r is Disconnected,
    {
        ChargingController::Disconnected
    }

    pub fn connect_car(&mut self, car_rwlock: SharedCar) -> (r: Result<(), ControllerError>)
        ensures
            old(self).wf() ==> final(self).wf(),
            *old(self) is Disconnected ==> (r matches Ok(u) && u == ()
                && *final(self) == (ChargingController::Connected { car_rwlock })),
            !(*old(self) is Disconnected) ==> (r matches Err(e)
                && e.kind == ErrorKind::InvalidInput
                && e.message@ == "Car is already connected"@
                && *final(self) == *old(self)),
    {
        let mut cur = ChargingController::Disconnected;
        core::mem::swap(self, &mut cur);
        match cur {
            ChargingController::Disconnected => {
                *self = ChargingController::Connected { car_rwlock };
                Ok(())
            },
            other => {
                *self = other;
                Err(ControllerError::invalid_input("Car is already connected"))
            },
        }
    }

    pub fn disconnect_car(&mut self) -> (r: Result<(), ControllerError>)
        ensures
            old(self).wf() ==> final(self).wf(),
            *old(self) is Connected ==> (r matches Ok(u) && u == ()
                && *final(self) == ChargingController::Disconnected),
            *old(self) is Charging ==> (r matches Err(e)
                && e.kind == ErrorKind::InvalidInput
                && e.message@ == "Cannot disconnect while charging"@
                && *final(self) == *old(self)),
            *old(self) is Disconnected ==> (r matches Err(e)
                && e.kind == ErrorKind::InvalidInput
                && e.message@ == "No car connected"@
                && *final(self) == *old(self)),
    {
        let mut cur = ChargingController::Disconnected;
        core::mem::swap(self, &mut cur);
        match cur {
            ChargingController::Connected { car_rwlock: _ } => Ok(()),
            ChargingController::Charging { car_rwlock, charging_speed_w } => {
                *self = ChargingController::Charging { car_rwlock, charging_speed_w };
                Err(ControllerError::invalid_input("Cannot disconnect while charging"))
            },
            ChargingController::Disconnected => {
                Err(ControllerError::invalid_input("No car connected"))
            },
        }
    }

    pub fn start_charging(&mut self, charging_speed_w: u32) -> (r: Result<(), ControllerError>)
        ensures
            old(self).wf() ==> final(self).wf(),
            match *old(self) {
                ChargingController::Disconnected => r matches Err(e)
                    && e.kind == ErrorKind::InvalidInput
                    && e.message@ == "No car connected"@
                    && *final(self) == *old(self),
                ChargingController::Charging { .. } => r matches Err(e)
                    && e.kind == ErrorKind::InvalidInput
                    && e.message@ == "Already charging"@
                    && *final(self) == *old(self),
                ChargingController::Connected { car_rwlock } => if charging_speed_w
                    > car_rwlock.pred().max_rate_w {
                    r matches Err(e) && e.kind == ErrorKind::InvalidInput
                        && e.message@ == "Charging speed exceeds car's maximum charging speed"@
                        && *final(self) == *old(self)
                } else {
                    exists|snapshot: Car|
                        {
                            &&& #[trigger] car_rwlock.inv(snapshot)
                            &&& if snapshot.spec_is_fully_charged() {
                                r matches Err(e) && e.kind == ErrorKind::InvalidInput
                                    && e.message@ == "Car is already fully charged"@
                                    && *final(self) == *old(self)
                            } else {
                                r matches Ok(u) && u == () && *final(self)
                                    == (ChargingController::Charging { car_rwlock, charging_speed_w })
                            }
                        }
                },
            },
    {
        let mut cur = ChargingController::Disconnected;
        core::mem::swap(self, &mut cur);
        match cur {
            ChargingController::Connected { car_rwlock } => {
                let read_handle = car_rwlock.acquire_read();
                let car = *read_handle.borrow();
                read_handle.release_read();
                if charging_speed_w > car.max_charging_speed_w {
                    *self = ChargingController::Connected { car_rwlock };
                    Err(ControllerError::invalid_input(
                        "Charging speed exceeds car's maximum charging speed",
                    ))
                } else if car.is_fully_charged() {
                    *self = ChargingController::Connected { car_rwlock };
                    Err(ControllerError::invalid_input("Car is already fully charged"))
                } else {
                    *self = ChargingController::Charging { car_rwlock, charging_speed_w };
                    Ok(())
                }
            },
            ChargingController::Charging { car_rwlock, charging_speed_w: speed } => {
                *self = ChargingController::Charging { car_rwlock, charging_speed_w: speed };
                Err(ControllerError::invalid_input("Already charging"))
            },
            ChargingController::Disconnected => {
                Err(ControllerError::invalid_input("No car connected"))
            },
        }
    }

    pub fn change_charging_speed(&mut self, new_charging_speed_w: u32) -> (r: Result<
        (),
        ControllerError,
    >)
        ensures
            old(self).wf() ==> final(self).wf(),
            match *old(self) {
                ChargingController::Charging { car_rwlock, charging_speed_w } => if new_charging_speed_w
                    > car_rwlock.pred().max_rate_w {
                    r matches Err(e) && e.kind == ErrorKind::InvalidInput
                        && e.message@ == "Charging speed exceeds car's maximum charging speed"@
                        && *final(self) == *old(self)
                } else {
                    r matches Ok(u) && u == () && *final(self) == (ChargingController::Charging {
                        car_rwlock,
                        charging_speed_w: new_charging_speed_w,
                    })
                },
                _ => r matches Err(e) && e.kind == ErrorKind::InvalidInput
                    && e.message@ == "Not currently charging"@
                    && *final(self) == *old(self),
            },
    {
        let mut cur = ChargingController::Disconnected;
        core::mem::swap(self, &mut cur);
        match cur {
            ChargingController::Charging { car_rwlock, charging_speed_w } => {
                let read_handle = car_rwlock.acquire_read();
                let max_rate_w = read_handle.borrow().max_charging_speed_w;
                read_handle.release_read();
                if new_charging_speed_w > max_rate_w {
                    *self = ChargingController::Charging { car_rwlock, charging_speed_w };
                    Err(ControllerError::invalid_input(
                        "Charging speed exceeds car's maximum charging speed",
                    ))
                } else {
                    *self = ChargingController::Charging {
                        car_rwlock,
                        charging_speed_w: new_charging_speed_w,
                    };
                    Ok(())
                }
            },
            other => {
                *self = other;
                Err(ControllerError::invalid_input("Not currently charging"))
            },
        }
    }

    pub fn stop_charging(&mut self) -> (r: Result<(), ControllerError>)
        ensures
            old(self).wf() ==> final(self).wf(),
            match *old(self) {
                ChargingController::Charging { car_rwlock, charging_speed_w } => r matches Ok(u)
                    && u == ()
                    && *final(self) == (ChargingController::Connected { car_rwlock }),
                _ => r matches Err(e) && e.kind == ErrorKind::InvalidInput
                    && e.message@ == "Not currently charging"@
                    && *final(self) == *old(self),
            },
    {
        let mut cur = ChargingController::Disconnected;
        core::mem::swap(self, &mut cur);
        match cur {
            ChargingController::Charging { car_rwlock, charging_speed_w: _ } => {
                *self = ChargingController::Connected { car_rwlock };
                Ok(())
            },
            other => {
                *self = other;
                Err(ControllerError::invalid_input("Not currently charging"))
            },
        }
    }
}

} // verus!
