use vstd::prelude::*;

verus! {

/// Fixed conversion from a trip's declared energy draw to its duration.
pub const TIME_IN_SECONDS_PER_WATT: u32 = 100;

/// How long the drive signal stays asserted for a trip that declares the
/// given energy usage. The wait itself, and driving the actuation pin, are
/// hardware work left to the embedding program.
pub fn trip_duration_s(energy_usage_w: u32) -> (d: u64)
    ensures
        d == energy_usage_w * TIME_IN_SECONDS_PER_WATT,
{
    proof {
        assert((energy_usage_w as int) * (TIME_IN_SECONDS_PER_WATT as int) < 0x8000_0000_0000_0000int)
            by (nonlinear_arith)
            requires
                energy_usage_w <= u32::MAX,
        ;
    }
    (energy_usage_w as u64) * (TIME_IN_SECONDS_PER_WATT as u64)
}

} // verus!
