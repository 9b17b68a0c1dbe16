use vstd::prelude::*;

verus! {

/// A 160-bit account identifier: `hi` holds its four most significant bytes,
/// `lo` the sixteen others (big-endian, as the bytes of an EVM address).
#[derive(Clone, Copy, Debug, PartialEq, Eq, Structural)]
pub struct Address {
    pub hi: u32,
    pub lo: u128,
}

impl Address {
    /// The address made of the given high and low parts.
    pub fn new(hi: u32, lo: u128) -> (r: Address)
        ensures
            r.hi == hi && r.lo == lo,
    {
        Address { hi, lo }
    }

    /// The zero address, which stands for "no account": minted value comes
    /// from it and burned value goes to it.
    pub fn zero() -> (r: Address)
        ensures
            r == Address::zero_spec(),
    {
        Address { hi: 0, lo: 0 }
    }

    pub open spec fn zero_spec() -> Address {
        Address { hi: 0, lo: 0 }
    }
}

} // verus!
