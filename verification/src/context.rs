use std::sync::Arc;
use vstd::prelude::*;
use vstd::rwlock::{RwLock, RwLockPredicate};

use crate::car::Car;
use crate::charging_controller::{CarPred, ChargingController, SharedCar};
use crate::errors::{ControllerError, ErrorKind};

verus! {

/// Invariant of the session lock: whatever controller sits in the lock is
/// well formed, and any battery handle it carries is the one shared battery
/// of this context — the session never swaps batteries behind the lock.
pub struct SessionPred {
    pub car_rwlock: SharedCar,
}

impl RwLockPredicate<ChargingController> for SessionPred {
    open spec fn inv(self, ctl: ChargingController) -> bool {
        &&& ctl.wf()
        &&& match ctl {
            ChargingController::Disconnected => true,
            ChargingController::Connected { car_rwlock } => car_rwlock == self.car_rwlock,
            ChargingController::Charging { car_rwlock, .. } => car_rwlock == self.car_rwlock,
        }
    }
}

/// The shared-state coordinator: a mutual-exclusion lock serialising session
/// transitions and a reader-writer lock around the one battery instance.
///
/// Lock order: code paths that need both acquire the session lock first and
/// the battery lock inside it, never the reverse. Battery-only readers and
/// writers (telemetry, charge updates) take the battery lock alone.
pub struct Context {
    pub charging_controller_mutex: Arc<RwLock<ChargingController, SessionPred>>,
    pub car_rwlock: SharedCar,
}

/// Relies on `Arc::clone` of the standard library: the clone is a handle to
/// the very same shared battery lock.
#[verifier::external_body]
pub fn clone_shared_car(car_rwlock: &SharedCar) -> (r: SharedCar)
    ensures
        r == *car_rwlock,
{
    car_rwlock.clone()
}

impl Context {
    /// The session lock of a coordinator always guards this context's own
    /// battery handle.
    pub open spec fn wf(self) -> bool {
        self.charging_controller_mutex.pred() == (SessionPred { car_rwlock: self.car_rwlock })
    }

    /// Brings the one slot up: builds the battery from the given triple,
    /// wraps it in the battery lock, and connects it to a fresh session.
    /// Fails exactly when the battery triple is rejected.
    pub fn new(
        charging_capacity_wh: u32,
        current_charge_wh: u32,
        max_charging_speed_w: u32,
    ) -> (r: Result<Self, ControllerError>)
        ensures
            current_charge_wh > charging_capacity_wh ==> (r matches Err(e)
                && e.kind == ErrorKind::InvalidInput
                && e.message@ == "Current charge cannot exceed charging capacity"@),
            current_charge_wh <= charging_capacity_wh ==> (r matches Ok(context)
                && context.wf()
                && context.car_rwlock.pred() == (CarPred {
                    capacity_wh: charging_capacity_wh,
                    max_rate_w: max_charging_speed_w,
                })),
    {
        let car = match Car::new(charging_capacity_wh, current_charge_wh, max_charging_speed_w) {
            Ok(car) => car,
            Err(e) => {
                return Err(e);
            },
        };
        let car_rwlock: SharedCar = Arc::new(
            RwLock::new(
                car,
                Ghost(
                    CarPred {
                        capacity_wh: charging_capacity_wh,
                        max_rate_w: max_charging_speed_w,
                    },
                ),
            ),
        );
        let mut controller = ChargingController::new();
        let connected = controller.connect_car(clone_shared_car(&car_rwlock));
        proof {
            assert(connected is Ok);
        }
        let charging_controller_mutex = Arc::new(
            RwLock::new(controller, Ghost(SessionPred { car_rwlock })),
        );
        Ok(Context { charging_controller_mutex, car_rwlock })
    }

    /// Telemetry read: a consistent snapshot of the shared battery, taken
    /// under the battery lock in read mode. The snapshot always satisfies
    /// the battery lock's invariant — concurrent writers can change which
    /// value is seen, never tear it.
    pub fn read_car(&self) -> (car: Car)
        ensures
            self.car_rwlock.inv(car),
            car.wf(),
    {
        let read_handle = self.car_rwlock.acquire_read();
        let car = *read_handle.borrow();
        read_handle.release_read();
        car
    }

    /// Concurrent telemetry reads agree on everything but the stored energy:
    /// any two snapshots handed out by the battery lock carry the same
    /// capacity and the same rate ceiling, and each respects the battery
    /// invariant — a reader can never see one battery's capacity paired with
    /// another value's bound-breaking charge.
    pub proof fn lemma_battery_reads_are_coherent(self, a: Car, b: Car)
        requires
            self.car_rwlock.inv(a),
            self.car_rwlock.inv(b),
        ensures
            a.charging_capacity_wh == b.charging_capacity_wh,
            a.max_charging_speed_w == b.max_charging_speed_w,
            a.wf(),
            b.wf(),
    {
    }

    /// Replaces the stored energy, atomically with respect to concurrent
    /// readers: the battery lock is taken in write mode, independently of the
    /// session lock. Fails exactly when the new charge exceeds the capacity
    /// the battery was built with, and then changes nothing.
    pub fn set_current_charge(&self, new_charge_wh: u32) -> (r: Result<(), ControllerError>)
        ensures
            new_charge_wh > self.car_rwlock.pred().capacity_wh ==> (r matches Err(e)
                && e.kind == ErrorKind::InvalidInput
                && e.message@ == "New charge cannot exceed charging capacity"@),
            new_charge_wh <= self.car_rwlock.pred().capacity_wh ==> (r matches Ok(u) && u == ()),
    {
        let (mut car, write_handle) = self.car_rwlock.acquire_write();
        let r = car.change_current_charge(new_charge_wh);
        write_handle.release_write(car);
        r
    }
}

} // verus!
