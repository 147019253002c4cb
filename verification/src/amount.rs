//! The ledger's arithmetic type: an unsigned 256-bit amount, used for
//! balances, allowances and the total supply. All operations are checked or
//! saturating; their contracts are stated over the mathematical value.

use vstd::prelude::*;

verus! {

/// Radix of one 128-bit limb: 2^128.
pub open spec fn limb_radix() -> nat {
    0x100000000000000000000000000000000nat
}

/// First value that does not fit in 256 bits: 2^256.
pub open spec fn amount_limit() -> nat {
    limb_radix() * limb_radix()
}

/// Every amount's mathematical value fits in 256 bits.
pub proof fn lemma_amount_bound(a: Amount)
    ensures
        a@ < amount_limit(),
{
}

/// An unsigned 256-bit amount, stored as two 128-bit limbs.
/// The mathematical value is `hi * 2^128 + lo`.
#[derive(Clone, Copy, Debug, PartialEq, Eq, Structural, Hash)]
pub struct Amount {
    lo: u128,
    hi: u128,
}

impl View for Amount {
    type V = nat;

    closed spec fn view(&self) -> nat {
        (self.hi * limb_radix() + self.lo) as nat
    }
}

impl Amount {
    /// The zero amount.
    pub fn zero() -> (r: Amount)
        ensures
            r@ == 0,
    {
        Amount { lo: 0, hi: 0 }
    }

    /// Embeds a 128-bit value.
    pub fn from_u128(v: u128) -> (r: Amount)
        ensures
            r@ == v,
    {
        Amount { lo: v, hi: 0 }
    }

    /// Builds an amount from its two 128-bit limbs; the value is
    /// `hi * 2^128 + lo`.
    pub fn from_limbs(hi: u128, lo: u128) -> (r: Amount)
        ensures
            r@ == hi * limb_radix() + lo,
    {
        Amount { lo, hi }
    }

    /// The two 128-bit limbs (hi, lo); the value is `hi * 2^128 + lo`.
    pub fn to_limbs(&self) -> (r: (u128, u128))
        ensures
            r.0 * limb_radix() + r.1 == self@,
    {
        (self.hi, self.lo)
    }

    /// The largest representable amount, 2^256 - 1.
    pub fn max_value() -> (r: Amount)
        ensures
            r@ == amount_limit() - 1,
    {
        Amount { lo: u128::MAX, hi: u128::MAX }
    }

    /// Whether this amount is zero.
    pub fn is_zero(&self) -> (r: bool)
        ensures
            r == (self@ == 0),
    {
        self.lo == 0 && self.hi == 0
    }

    /// Value equality; agrees with structural equality because the limb
    /// decomposition of a 256-bit value is unique.
    pub fn eq_val(&self, rhs: &Amount) -> (r: bool)
        ensures
            r == (self@ == rhs@),
    {
        self.lo == rhs.lo && self.hi == rhs.hi
    }

    /// Strict comparison of the mathematical values.
    pub fn lt(&self, rhs: &Amount) -> (r: bool)
        ensures
            r == (self@ < rhs@),
    {
        self.hi < rhs.hi || (self.hi == rhs.hi && self.lo < rhs.lo)
    }

    /// Non-strict comparison of the mathematical values.
    pub fn le(&self, rhs: &Amount) -> (r: bool)
        ensures
            r == (self@ <= rhs@),
    {
        !rhs.lt(self)
    }

    /// Checked addition: the exact sum, or `None` when it does not fit in
    /// 256 bits.
    pub fn checked_add(self, rhs: Amount) -> (r: Option<Amount>)
        ensures
            (match r {
                Some(s) => self@ + rhs@ < amount_limit() && s@ == self@ + rhs@,
                None => self@ + rhs@ >= amount_limit(),
            }),
    {
        let carry_needed = self.lo > u128::MAX - rhs.lo;
        let lo: u128 = if carry_needed {
            (rhs.lo - (u128::MAX - self.lo)) - 1
        } else {
            self.lo + rhs.lo
        };
        let carry: u128 = if carry_needed {
            1
        } else {
            0
        };
        if self.hi > u128::MAX - rhs.hi {
            return None;
        }
        let h = self.hi + rhs.hi;
        if carry == 1 && h == u128::MAX {
            return None;
        }
        Some(Amount { lo, hi: h + carry })
    }

    /// Checked subtraction: the exact difference, or `None` when the
    /// subtrahend exceeds this amount.
    pub fn checked_sub(self, rhs: Amount) -> (r: Option<Amount>)
        ensures
            (match r {
                Some(d) => self@ >= rhs@ && d@ == self@ - rhs@,
                None => self@ < rhs@,
            }),
    {
        if self.lt(&rhs) {
            return None;
        }
        let borrow_needed = self.lo < rhs.lo;
        let lo: u128 = if borrow_needed {
            (u128::MAX - (rhs.lo - self.lo)) + 1
        } else {
            self.lo - rhs.lo
        };
        let borrow: u128 = if borrow_needed {
            1
        } else {
            0
        };
        Some(Amount { lo, hi: self.hi - rhs.hi - borrow })
    }

    /// Saturating addition: the sum, capped at 2^256 - 1.
    pub fn saturating_add(self, rhs: Amount) -> (r: Amount)
        ensures
            r@ == if self@ + rhs@ < amount_limit() {
                self@ + rhs@
            } else {
                (amount_limit() - 1) as nat
            },
    {
        match self.checked_add(rhs) {
            Some(s) => s,
            None => Amount::max_value(),
        }
    }

    /// Saturating subtraction: the difference, floored at zero.
    pub fn saturating_sub(self, rhs: Amount) -> (r: Amount)
        ensures
            r@ == if self@ >= rhs@ {
                self@ - rhs@
            } else {
                0
            },
    {
        match self.checked_sub(rhs) {
            Some(d) => d,
            None => Amount::zero(),
        }
    }
}

} // verus!
