use vstd::prelude::*;

verus! {

/// A 160-bit account address, held as its high 32 bits and its low 128 bits.
#[derive(Clone, Copy, Debug, PartialEq, Eq, Structural, Hash)]
pub struct Address {
    pub hi: u32,
    pub lo: u128,
}

impl Address {
    /// The address whose high and low parts are the given values.
    pub fn new(hi: u32, lo: u128) -> (r: Address)
        ensures
            r.hi == hi,
            r.lo == lo,
    {
        Address { hi, lo }
    }

    /// The address with every bit clear.
    pub fn zero() -> (r: Address)
        ensures
            r.hi == 0,
            r.lo == 0,
    {
        Address { hi: 0, lo: 0 }
    }

    /// Whether every bit of the address is clear.
    pub fn is_zero(&self) -> (r: bool)
        ensures
            r == (self.hi == 0 && self.lo == 0),
    {
        self.hi == 0 && self.lo == 0
    }
}

} // verus!
