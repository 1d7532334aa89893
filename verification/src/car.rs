use vstd::prelude::*;

use crate::errors::{ControllerError, ErrorKind};

verus! {

/// Tolerance band below nominal capacity at which the battery counts as
/// charge-complete.
pub const FULL_CAPACITY_MARGIN: u32 = 10;

/// The battery model of the one vehicle slot: total usable capacity, stored
/// energy, and the hardware ceiling on charging power. Capacity and ceiling
/// are fixed at construction; only the stored energy is ever mutated.
#[derive(Clone, Copy, Debug, PartialEq, Eq, Structural)]
pub struct Car {
    pub charging_capacity_wh: u32,
    pub current_charge_wh: u32,
    pub max_charging_speed_w: u32,
}

impl Car {
    /// The battery invariant: the stored energy never exceeds the capacity.
    pub open spec fn wf(self) -> bool {
        self.current_charge_wh <= self.charging_capacity_wh
    }

    /// Charge-complete predicate: the stored energy is within
    /// `FULL_CAPACITY_MARGIN` of the capacity.
    pub open spec fn spec_is_fully_charged(&self) -> bool {
        self.current_charge_wh + FULL_CAPACITY_MARGIN >= self.charging_capacity_wh
    }

    pub fn new(
        charging_capacity_wh: u32,
        current_charge_wh: u32,
        max_charging_speed_w: u32,
    ) -> (r: Result<Self, ControllerError>)
        ensures
            current_charge_wh > charging_capacity_wh ==> (r matches Err(e)
                && e.kind == ErrorKind::InvalidInput
                && e.message@ == "Current charge cannot exceed charging capacity"@),
            current_charge_wh <= charging_capacity_wh ==> (r matches Ok(c)
                && c == (Car { charging_capacity_wh, current_charge_wh, max_charging_speed_w })
                && c.wf()),
    {
        if current_charge_wh > charging_capacity_wh {
            Err(ControllerError::invalid_input("Current charge cannot exceed charging capacity"))
        } else {
            Ok(Car { charging_capacity_wh, current_charge_wh, max_charging_speed_w })
        }
    }

    #[verifier::when_used_as_spec(spec_is_fully_charged)]
    pub fn is_fully_charged(&self) -> (r: bool)
        ensures
            r == self.spec_is_fully_charged(),
    {
        (self.current_charge_wh as u64) + (FULL_CAPACITY_MARGIN as u64)
            >= (self.charging_capacity_wh as u64)
    }

    pub fn change_current_charge(&mut self, new_charge_wh: u32) -> (r: Result<(), ControllerError>)
        ensures
            new_charge_wh > old(self).charging_capacity_wh ==> (r matches Err(e)
                && e.kind == ErrorKind::InvalidInput
                && e.message@ == "New charge cannot exceed charging capacity"@
                && *final(self) == *old(self)),
            new_charge_wh <= old(self).charging_capacity_wh ==> (r matches Ok(u)
                && u == ()
                && *final(self) == (Car { current_charge_wh: new_charge_wh, ..*old(self) })),
    {
        if new_charge_wh > self.charging_capacity_wh {
            Err(ControllerError::invalid_input("New charge cannot exceed charging capacity"))
        } else {
            self.current_charge_wh = new_charge_wh;
            Ok(())
        }
    }
}

} // verus!
