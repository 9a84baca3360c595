use vstd::prelude::*;

verus! {

/// Identifier of a uProtocol message: its most and least significant 64 bits.
#[derive(Clone, Copy, Debug, PartialEq, Eq, Structural)]
pub struct UUID {
    pub msb: u64,
    pub lsb: u64,
}

impl UUID {
    /// Returns the most significant 64 bits.
    pub fn get_msb(&self) -> (r: u64)
        ensures
            r == self.msb,
    {
        self.msb
    }

    /// Returns the least significant 64 bits.
    pub fn get_lsb(&self) -> (r: u64)
        ensures
            r == self.lsb,
    {
        self.lsb
    }
}

} // verus!
