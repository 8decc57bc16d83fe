//! Quantities of fungible value.
//!
//! The ledger counts value in `Decimal`s of the `scrypto` crate: signed
//! 192-bit integers of 10^-18 subunits ("attos"). An [`Amount`] is such a
//! number that is not negative, kept as its three 64-bit limbs, so that its
//! mathematical value is plain arithmetic on integers. The arithmetic itself
//! is `Decimal`'s.

use scrypto::math::{CheckedAdd, Decimal, I192};
use vstd::prelude::*;

verus! {

/// The value of three little-endian 64-bit limbs read as one natural number.
pub open spec fn limbs_value(lo: u64, mid: u64, hi: u64) -> nat {
    (lo + mid * 0x1_0000_0000_0000_0000int
        + hi * 0x1_0000_0000_0000_0000_0000_0000_0000_0000int) as nat
}

/// The largest number of attos that an [`Amount`] holds: 2^191 - 1, which is
/// `Decimal::MAX`.
pub open spec fn max_attos() -> nat {
    0x7fff_ffff_ffff_ffff_ffff_ffff_ffff_ffff_ffff_ffff_ffff_ffffnat
}

/// A non-negative quantity of value, in attos.
#[derive(Clone, Copy, Debug, PartialEq, Eq)]
pub struct Amount {
    lo: u64,
    mid: u64,
    hi: u64,
}

impl View for Amount {
    type V = nat;

    closed spec fn view(&self) -> nat {
        limbs_value(self.lo, self.mid, self.hi)
    }
}

/// Calls `Decimal::zero` of `scrypto::math` and hands out its limbs: the
/// amount of no value.
#[verifier::external_body]
fn decimal_zero() -> (r: Amount)
    ensures
        r@ == 0,
{
    let d = Decimal::zero().attos().to_digits();
    Amount { lo: d[0], mid: d[1], hi: d[2] }
}

/// Calls `checked_add` of `scrypto::math::Decimal` on the two amounts as
/// `Decimal`s. It gives their sum where that is at most `Decimal::MAX`, and
/// `None` where it is more. Neither amount is negative as a `Decimal`, so
/// the sum is not below `Decimal::MIN`.
#[verifier::external_body]
fn decimal_checked_add(a: Amount, b: Amount) -> (r: Option<Amount>)
    ensures
        match r {
            Some(sum) => sum@ == a@ + b@ && sum@ <= max_attos(),
            None => a@ + b@ > max_attos(),
        },
{
    let x = Decimal::from_attos(I192::from_digits([a.lo, a.mid, a.hi]));
    let y = Decimal::from_attos(I192::from_digits([b.lo, b.mid, b.hi]));
    match x.checked_add(y) {
        Some(z) => {
            let d = z.attos().to_digits();
            Some(Amount { lo: d[0], mid: d[1], hi: d[2] })
        },
        None => None,
    }
}

/// Compares the two amounts as `Decimal`s of `scrypto::math`, with
/// `Decimal`'s own `>`, which orders `Decimal`s by their number of attos.
#[verifier::external_body]
fn decimal_gt(a: Amount, b: Amount) -> (r: bool)
    ensures
        r == (a@ > b@),
{
    let x = Decimal::from_attos(I192::from_digits([a.lo, a.mid, a.hi]));
    let y = Decimal::from_attos(I192::from_digits([b.lo, b.mid, b.hi]));
    x > y
}

impl Amount {
    /// Every amount is at most `Decimal::MAX`: its top limb has no sign bit.
    #[verifier::type_invariant]
    pub open spec fn in_range(self) -> bool {
        self@ <= max_attos()
    }

    /// The amount with the given limbs, least significant first, or `None`
    /// where they make more than `Decimal::MAX` (the limbs of a negative
    /// `Decimal`).
    pub fn from_limbs(lo: u64, mid: u64, hi: u64) -> (r: Option<Amount>)
        ensures
            match r {
                Some(a) => a@ == limbs_value(lo, mid, hi),
                None => limbs_value(lo, mid, hi) > max_attos(),
            },
    {
        if hi < 0x8000_0000_0000_0000 {
            Some(Amount { lo, mid, hi })
        } else {
            None
        }
    }

    /// An amount is its value: two amounts of one value have the same limbs.
    pub proof fn lemma_value_is_the_amount(self, other: Amount)
        requires
            self@ == other@,
        ensures
            self == other,
    {
        assert(self.lo == other.lo && self.mid == other.mid && self.hi == other.hi) by {
            let (a, b, c) = (self.lo as int, self.mid as int, self.hi as int);
            let (x, y, z) = (other.lo as int, other.mid as int, other.hi as int);
            assert(a + b * 0x1_0000_0000_0000_0000int + c
                * 0x1_0000_0000_0000_0000_0000_0000_0000_0000int == x + y
                * 0x1_0000_0000_0000_0000int + z * 0x1_0000_0000_0000_0000_0000_0000_0000_0000int);
        }
    }

    /// The limbs of this amount, least significant first.
    pub fn limbs(self) -> (r: (u64, u64, u64))
        ensures
            limbs_value(r.0, r.1, r.2) == self@,
    {
        (self.lo, self.mid, self.hi)
    }

    /// The amount of no value.
    pub fn zero() -> (r: Amount)
        ensures
            r@ == 0,
    {
        decimal_zero()
    }

    /// The sum of two amounts, or `None` where it is more than the ledger
    /// can count.
    pub fn checked_add(self, other: Amount) -> (r: Option<Amount>)
        ensures
            match r {
                Some(sum) => sum@ == self@ + other@ && sum@ <= max_attos(),
                None => self@ + other@ > max_attos(),
            },
    {
        decimal_checked_add(self, other)
    }

    /// Whether this amount is strictly more than `other`.
    pub fn exceeds(self, other: Amount) -> (r: bool)
        ensures
            r == (self@ > other@),
    {
        decimal_gt(self, other)
    }

    /// Whether this amount is enough to take `needed` out of it.
    pub fn covers(self, needed: Amount) -> (r: bool)
        ensures
            r == (self@ >= needed@),
    {
        !decimal_gt(needed, self)
    }
}

} // verus!
