//! Fixed-point monetary amounts.
//!
//! An [`Amount`] is a signed decimal quantity with four fractional digits,
//! stored as a count of ten-thousandths. Ledger arithmetic never overflows
//! silently: additions that would leave the representable range are rejected
//! through [`Amount::checked_add`], and subtractions are only performed where
//! the caller can show the result stays in range.

use vstd::prelude::*;

verus! {

/// Largest magnitude of the unit count that an in-range amount may hold
/// (ten-thousandths of a whole unit, so twenty-nine integer digits plus the
/// four fractional ones).
pub const MAX_UNITS: i128 = 999_999_999_999_999_999_999_999_999_999_999;

/// Whether a mathematical unit count lies in the representable range.
pub open spec fn in_range(units: int) -> bool {
    -MAX_UNITS <= units <= MAX_UNITS
}

/// A signed decimal amount with four fractional digits, counted in
/// ten-thousandths of a whole unit.
#[derive(Debug, Clone, Copy, PartialEq, Eq, Structural)]
pub struct Amount {
    units: i128,
}

impl View for Amount {
    type V = int;

    closed spec fn view(&self) -> int {
        self.units as int
    }
}

impl Amount {
    /// The amount counting `units` ten-thousandths of a whole unit.
    pub fn from_units(units: i128) -> (r: Amount)
        ensures
            r@ == units,
    {
        Amount { units }
    }

    /// The zero amount.
    pub fn zero() -> (r: Amount)
        ensures
            r@ == 0,
    {
        Amount { units: 0 }
    }

    /// The largest representable amount.
    pub fn max_value() -> (r: Amount)
        ensures
            r@ == MAX_UNITS,
    {
        Amount { units: MAX_UNITS }
    }

    /// The unit count behind this amount.
    pub fn units(&self) -> (r: i128)
        ensures
            r == self@,
    {
        self.units
    }

    /// Addition that reports, instead of performing, any step outside the
    /// representable range.
    pub fn checked_add(self, rhs: Amount) -> (r: Option<Amount>)
        ensures
            match r {
                Some(s) => in_range(self@ + rhs@) && s@ == self@ + rhs@,
                None => !in_range(self@ + rhs@),
            },
    {
        match self.units.checked_add(rhs.units) {
            Some(u) => {
                if -MAX_UNITS <= u && u <= MAX_UNITS {
                    Some(Amount { units: u })
                } else {
                    None
                }
            },
            None => None,
        }
    }

    /// Subtraction, for callers that can show the difference stays in range.
    pub fn sub(self, rhs: Amount) -> (r: Amount)
        requires
            in_range(self@ - rhs@),
        ensures
            r@ == self@ - rhs@,
    {
        Amount { units: self.units - rhs.units }
    }

    /// Addition, for callers that can show the sum stays in range.
    pub fn add(self, rhs: Amount) -> (r: Amount)
        requires
            in_range(self@ + rhs@),
        ensures
            r@ == self@ + rhs@,
    {
        Amount { units: self.units + rhs.units }
    }

    /// Whether this amount is strictly greater than `rhs`.
    pub fn gt(&self, rhs: &Amount) -> (r: bool)
        ensures
            r == (self@ > rhs@),
    {
        self.units > rhs.units
    }

    /// Whether this amount is strictly positive.
    pub fn is_positive(&self) -> (r: bool)
        ensures
            r == (self@ > 0),
    {
        self.units > 0
    }
}

} // verus!
