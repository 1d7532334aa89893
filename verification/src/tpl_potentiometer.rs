use vstd::prelude::*;

verus! {

/// Handle for the digital potentiometer that programs the charging hardware:
/// the bus it is reached over and its device address. Writing a resistance
/// to it is floating-point hardware calibration and lives with the embedding
/// program; the handle itself only pairs the bus with the address.
#[derive(Clone)]
pub struct TPLPotentiometer<I2C> {
    pub i2c: I2C,
    pub address: u8,
}

impl<I2C> TPLPotentiometer<I2C> {
    pub fn new(i2c: I2C, address: u8) -> (r: TPLPotentiometer<I2C>)
        ensures
            r == (TPLPotentiometer { i2c, address }),
    {
        TPLPotentiometer { i2c, address }
    }
}

} // verus!
