//! Exact fixed-point monetary values.
//!
//! An [`Amount`] is a signed decimal with four fractional digits, stored as a
//! count of ten-thousandths in an `i64`. The representable range is kept
//! symmetric (`i64::MIN` is excluded), so that negation and absolute value are
//! total operations; additions and subtractions that would leave the range are
//! detected by the checked operations rather than wrapped.

use vstd::prelude::*;

verus! {

/// Largest representable count of ten-thousandths.
pub const MAX_UNITS: i64 = i64::MAX;

/// Smallest representable count of ten-thousandths (the range is symmetric).
pub const MIN_UNITS: i64 = -i64::MAX;

/// True when a mathematical value (in ten-thousandths) fits in an [`Amount`].
pub open spec fn in_range(v: int) -> bool {
    -(i64::MAX as int) <= v <= i64::MAX as int
}

/// An exact decimal amount with four fractional digits.
///
/// The view of an `Amount` is its mathematical value as a count of
/// ten-thousandths.
#[derive(Clone, Copy, Debug, PartialEq, Eq, Structural)]
pub struct Amount {
    units: i64,
}

impl View for Amount {
    type V = int;

    closed spec fn view(&self) -> int {
        self.units as int
    }
}

impl Amount {
    #[verifier::type_invariant]
    spec fn type_inv(self) -> bool {
        self.units != i64::MIN
    }

    /// Builds an amount from a count of ten-thousandths.
    pub fn new(units: i64) -> (r: Amount)
        requires
            units != i64::MIN,
        ensures
            r@ == units as int,
    {
        Amount { units }
    }

    /// The amount zero.
    pub fn zero() -> (r: Amount)
        ensures
            r@ == 0,
    {
        Amount { units: 0 }
    }

    /// The largest representable amount.
    pub fn max_value() -> (r: Amount)
        ensures
            r@ == i64::MAX as int,
    {
        Amount { units: MAX_UNITS }
    }

    /// The count of ten-thousandths this amount stands for.
    pub fn units(&self) -> (r: i64)
        ensures
            r as int == self@,
    {
        self.units
    }

    /// Exact addition; `None` when the sum leaves the representable range.
    pub fn checked_add(self, rhs: Amount) -> (r: Option<Amount>)
        ensures
            in_range(self@ + rhs@) ==> (r matches Some(a) && a@ == self@ + rhs@),
            !in_range(self@ + rhs@) ==> r is None,
    {
        match self.units.checked_add(rhs.units) {
            Some(u) => {
                if u == i64::MIN {
                    None
                } else {
                    Some(Amount { units: u })
                }
            },
            None => None,
        }
    }

    /// Exact subtraction; `None` when the difference leaves the range.
    pub fn checked_sub(self, rhs: Amount) -> (r: Option<Amount>)
        ensures
            in_range(self@ - rhs@) ==> (r matches Some(a) && a@ == self@ - rhs@),
            !in_range(self@ - rhs@) ==> r is None,
    {
        match self.units.checked_sub(rhs.units) {
            Some(u) => {
                if u == i64::MIN {
                    None
                } else {
                    Some(Amount { units: u })
                }
            },
            None => None,
        }
    }

    /// Absolute value; total because the range is symmetric.
    pub fn abs(self) -> (r: Amount)
        ensures
            r@ == vstd::math::abs(self@),
    {
        proof {
            use_type_invariant(self);
        }
        if self.units < 0 {
            Amount { units: -self.units }
        } else {
            self
        }
    }

    /// Negation; total because the range is symmetric.
    pub fn neg(self) -> (r: Amount)
        ensures
            r@ == -self@,
    {
        proof {
            use_type_invariant(self);
        }
        Amount { units: -self.units }
    }

    /// True when the amount is strictly below zero.
    pub fn is_negative(&self) -> (r: bool)
        ensures
            r == (self@ < 0),
    {
        self.units < 0
    }

    /// True when the amount is strictly above zero.
    pub fn is_positive(&self) -> (r: bool)
        ensures
            r == (self@ > 0),
    {
        self.units > 0
    }
}

} // verus!
