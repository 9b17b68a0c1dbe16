use alloy_primitives::U256;
use vstd::prelude::*;

verus! {

/// 2^64, the weight of one limb step.
pub open spec fn limb_base() -> nat {
    0x1_0000_0000_0000_0000
}

/// 2^256: every amount lies below it.
pub open spec fn amount_bound() -> nat {
    limb_base() * limb_base() * limb_base() * limb_base()
}

/// An unsigned 256-bit token amount, stored as four 64-bit limbs, least
/// significant first (the layout of `alloy_primitives::U256`).
#[derive(Clone, Copy, Debug, PartialEq, Eq, Structural)]
pub struct Amount {
    pub l0: u64,
    pub l1: u64,
    pub l2: u64,
    pub l3: u64,
}

/// The value of an amount: `l0 + 2^64 * l1 + 2^128 * l2 + 2^192 * l3`.
impl View for Amount {
    type V = nat;

    closed spec fn view(&self) -> nat {
        self.l0 as nat + limb_base() * (self.l1 as nat + limb_base() * (self.l2 as nat
            + limb_base() * self.l3 as nat))
    }
}

/// Every amount is below 2^256.
pub proof fn lemma_amount_bounded(a: Amount)
    ensures
        a@ < amount_bound(),
{
    let b = limb_base();
    let (x0, x1, x2, x3) = (a.l0 as nat, a.l1 as nat, a.l2 as nat, a.l3 as nat);
    assert(x0 < b && x1 < b && x2 < b && x3 < b);
    assert(x2 + b * x3 <= (b - 1) + b * (b - 1)) by (nonlinear_arith)
        requires
            x2 < b,
            x3 < b,
    ;
    assert(x1 + b * (x2 + b * x3) <= (b - 1) + b * ((b - 1) + b * (b - 1))) by (nonlinear_arith)
        requires
            x1 < b,
            x2 + b * x3 <= (b - 1) + b * (b - 1),
    ;
    assert(x0 + b * (x1 + b * (x2 + b * x3)) <= (b - 1) + b * ((b - 1) + b * ((b - 1) + b * (b
        - 1)))) by (nonlinear_arith)
        requires
            x0 < b,
            x1 + b * (x2 + b * x3) <= (b - 1) + b * ((b - 1) + b * (b - 1)),
    ;
    assert((b - 1) + b * ((b - 1) + b * ((b - 1) + b * (b - 1))) == b * b * b * b - 1)
        by (nonlinear_arith);
}

impl Amount {
    /// The amount zero.
    pub fn zero() -> (r: Amount)
        ensures
            r@ == 0,
    {
        Amount { l0: 0, l1: 0, l2: 0, l3: 0 }
    }

    /// The amount `v`.
    pub fn from_u64(v: u64) -> (r: Amount)
        ensures
            r@ == v as nat,
    {
        Amount { l0: v, l1: 0, l2: 0, l3: 0 }
    }

    /// The amount whose limbs, least significant first, are `limbs`.
    pub fn from_limbs(limbs: [u64; 4]) -> (r: Amount)
        ensures
            r.l0 == limbs[0] && r.l1 == limbs[1] && r.l2 == limbs[2] && r.l3 == limbs[3],
            r@ == limbs[0] as nat + limb_base() * (limbs[1] as nat + limb_base() * (
            limbs[2] as nat + limb_base() * limbs[3] as nat)),
    {
        Amount { l0: limbs[0], l1: limbs[1], l2: limbs[2], l3: limbs[3] }
    }

    /// The four limbs of this amount, least significant first.
    pub fn to_limbs(&self) -> (r: [u64; 4])
        ensures
            r[0] == self.l0 && r[1] == self.l1 && r[2] == self.l2 && r[3] == self.l3,
    {
        [self.l0, self.l1, self.l2, self.l3]
    }
}

/// Relies on `U256::checked_add` (ruint's `Uint::checked_add`): the sum when
/// it is below 2^256, and `None` otherwise.
#[verifier::external_body]
pub(crate) fn checked_add(a: Amount, b: Amount) -> (r: Option<Amount>)
    ensures
        match r {
            Some(s) => a@ + b@ < amount_bound() && s@ == a@ + b@,
            None => a@ + b@ >= amount_bound(),
        },
{
    let x = U256::from_limbs([a.l0, a.l1, a.l2, a.l3]);
    let y = U256::from_limbs([b.l0, b.l1, b.l2, b.l3]);
    match x.checked_add(y) {
        Some(s) => {
            let l = s.into_limbs();
            Some(Amount { l0: l[0], l1: l[1], l2: l[2], l3: l[3] })
        },
        None => None,
    }
}

/// Relies on `U256::checked_sub` (ruint's `Uint::checked_sub`): the
/// difference when `a >= b`, and `None` when `a < b`.
#[verifier::external_body]
pub(crate) fn checked_sub(a: Amount, b: Amount) -> (r: Option<Amount>)
    ensures
        match r {
            Some(d) => a@ >= b@ && d@ == a@ - b@,
            None => a@ < b@,
        },
{
    let x = U256::from_limbs([a.l0, a.l1, a.l2, a.l3]);
    let y = U256::from_limbs([b.l0, b.l1, b.l2, b.l3]);
    match x.checked_sub(y) {
        Some(d) => {
            let l = d.into_limbs();
            Some(Amount { l0: l[0], l1: l[1], l2: l[2], l3: l[3] })
        },
        None => None,
    }
}

} // verus!
