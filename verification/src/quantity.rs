//! Exact quantities: a reading divided by a unit or by a count.

use vstd::prelude::*;

verus! {

/// Bytes in a kibibyte.
pub const BYTES_PER_KIB: u64 = 1024;

/// Kibibytes in a gibibyte.
pub const KIB_PER_GIB: u64 = 1024 * 1024;

/// A non-negative quantity held exactly, as the quotient `num / den`.
///
/// Readings that a unit conversion or an average leaves fractional are kept
/// in this form, so that nothing is rounded before the value is displayed.
#[derive(Clone, Copy, Debug, PartialEq, Eq, Structural)]
pub struct Quotient {
    pub num: u128,
    pub den: u64,
}

impl Quotient {
    /// The divisor is not zero.
    pub open spec fn wf(&self) -> bool {
        self.den > 0
    }

    /// Whether the quotient is exactly the whole number `n`.
    pub open spec fn is_whole(&self, n: int) -> bool {
        self.num == n * self.den
    }

    /// The quotient `num / den`, or `None` for a zero divisor.
    pub fn new(num: u128, den: u64) -> (r: Option<Quotient>)
        ensures
            den == 0 <==> r is None,
            r matches Some(q) ==> q.num == num && q.den == den && q.wf(),
    {
        if den == 0 {
            None
        } else {
            Some(Quotient { num, den })
        }
    }

    /// The whole number `n`.
    pub fn whole(n: u64) -> (r: Quotient)
        ensures
            r.num == n,
            r.den == 1,
            r.wf(),
            r.is_whole(n as int),
    {
        Quotient { num: n as u128, den: 1 }
    }

    /// Tells whether the quantity is exactly `n`.
    pub fn equals_whole(&self, n: u64) -> (r: bool)
        ensures
            r == self.is_whole(n as int),
    {
        assert(n * self.den <= u128::MAX) by (nonlinear_arith)
            requires
                n <= u64::MAX,
                self.den <= u64::MAX,
        ;
        self.num == (n as u128) * (self.den as u128)
    }
}

/// A quantity in kibibytes as gibibytes: the same dividend over a divisor
/// 1024 × 1024 times as large; `None` where that divisor does not fit.
pub open spec fn kib_to_gib_of(kib: Quotient) -> Option<Quotient> {
    if kib.den * KIB_PER_GIB > u64::MAX {
        None
    } else {
        Some(Quotient { num: kib.num, den: (kib.den * KIB_PER_GIB) as u64 })
    }
}

/// Converts a quantity in kibibytes to gibibytes, dividing by 1024 × 1024.
///
/// The result is exact. It is `None` only when the enlarged divisor no longer
/// fits the representation.
#[allow(non_snake_case)]
pub fn KiB_to_GiB(kib: Quotient) -> (r: Option<Quotient>)
    ensures
        r == kib_to_gib_of(kib),
        r matches Some(gib) ==> (kib.wf() ==> gib.wf()),
{
    assert(kib.den > 0 ==> kib.den * KIB_PER_GIB > 0) by (nonlinear_arith)
        requires
            KIB_PER_GIB > 0,
    ;
    match kib.den.checked_mul(KIB_PER_GIB) {
        Some(den) => Some(Quotient { num: kib.num, den }),
        None => None,
    }
}

/// Dividing by 1024 × 1024 undoes a multiplication by 1024 × 1024: a whole
/// number of gibibytes, written in kibibytes, converts back to that number.
pub proof fn law_whole_gib_round_trip(n: u64)
    ensures
        kib_to_gib_of(Quotient { num: (n * KIB_PER_GIB) as u128, den: 1 }) matches Some(gib)
            && gib.wf() && gib.is_whole(n as int),
{
}

} // verus!
