//! Integers wide enough for every tag of every supported representation.

use vstd::prelude::*;

verus! {

/// An integer between `-(2^128 - 1)` and `2^128 - 1`, held as a sign and a
/// magnitude so that one type covers both `i128` and `u128` tags.
#[derive(Clone, Copy, Debug, PartialEq, Eq)]
pub struct TagValue {
    pub negative: bool,
    pub magnitude: u128,
}

impl TagValue {
    /// The mathematical integer that this value stands for.
    pub open spec fn value(self) -> int {
        if self.negative {
            -(self.magnitude as int)
        } else {
            self.magnitude as int
        }
    }

    /// The value of an unsigned integer.
    pub fn from_unsigned(v: u128) -> (r: TagValue)
        ensures
            r.value() == v,
            !r.negative,
    {
        TagValue { negative: false, magnitude: v }
    }

    /// The value of a signed integer.
    pub fn from_signed(v: i128) -> (r: TagValue)
        ensures
            r.value() == v,
            r.negative == (v < 0),
    {
        if v < 0 {
            // `-v` may not fit, `-(v + 1)` always does.
            let below: i128 = -(v + 1);
            TagValue { negative: true, magnitude: below as u128 + 1 }
        } else {
            TagValue { negative: false, magnitude: v as u128 }
        }
    }

    /// Whether two values stand for the same integer; the two signed zeros
    /// are the same.
    pub fn same(self, other: TagValue) -> (r: bool)
        ensures
            r == (self.value() == other.value()),
    {
        self.magnitude == other.magnitude && (self.negative == other.negative || self.magnitude
            == 0)
    }

    /// Whether this value is `base + offset`, decided without computing the
    /// sum, which may lie outside every machine integer.
    pub fn is_sum_of(self, base: TagValue, offset: u128) -> (r: bool)
        ensures
            r == (self.value() == base.value() + offset),
    {
        if base.negative {
            if self.negative {
                // -n == -m + k  <=>  m - n == k
                base.magnitude >= self.magnitude && base.magnitude - self.magnitude == offset
            } else {
                // v == -m + k  <=>  k - m == v
                offset >= base.magnitude && offset - base.magnitude == self.magnitude
            }
        } else {
            if self.negative {
                // -n == b + k with b, k >= 0 only when all three are zero
                self.magnitude == 0 && base.magnitude == 0 && offset == 0
            } else {
                self.magnitude >= base.magnitude && self.magnitude - base.magnitude == offset
            }
        }
    }
}

} // verus!
