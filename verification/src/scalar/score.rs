//! Scores.
use vstd::prelude::*;
use core::ops::{
    Add, AddAssign, Div, DivAssign, Mul, MulAssign, Neg, Rem, RemAssign, Sub, SubAssign,
};
use vstd::std_specs::convert::FromSpecImpl;
use vstd::std_specs::ops::{
    AddSpecImpl, DivSpecImpl, MulSpecImpl, NegSpecImpl, RemSpecImpl, SubSpecImpl,
};
use crate::scalar::arith::{truncated_quotient, truncated_quotient_fits, truncated_remainder};
use crate::text::{signed_decimal, write_signed_decimal};

verus! {

/// A score: a signed 32-bit number of its own type. It is
/// never taken for a plain number or for a value of another such type.
#[derive(Debug, Clone, Copy, PartialEq, Eq, Structural, PartialOrd, Ord, Hash)]
pub struct Score(pub i32);

impl Score {
    /// The score with the given value.
    pub fn new(value: i32) -> (made: Self)
        ensures
            made.0 == value,
    {
        Score(value)
    }

    /// The value inside.
    pub fn value(self) -> (value: i32)
        ensures
            value == self.0,
    {
        self.0
    }

    /// A reference to the value inside.
    pub fn as_ref(&self) -> (value: &i32)
        ensures
            *value == self.0,
    {
        &self.0
    }

    /// A mutable reference to the value inside: what is written through
    /// it is the new value.
    pub fn as_mut(&mut self) -> (value: &mut i32)
        ensures
            *value == old(self).0,
            final(self).0 == *final(value),
    {
        &mut self.0
    }

    /// The absolute value.
    pub fn abs(self) -> (absolute: Self)
        requires
            self.0 != i32::MIN,
        ensures
            absolute.0 == if self.0 < 0 {
                -self.0
            } else {
                self.0 as int
            },
    {
        if self.0 < 0 {
            Score(-self.0)
        } else {
            self
        }
    }

    /// The value in decimal digits, with a minus sign if it is negative.
    pub fn to_string(&self) -> (text: String)
        ensures
            text@ == signed_decimal(self.0 as int),
    {
        let mut text = String::new();
        write_signed_decimal(&mut text, self.0);
        text
    }
}

impl Add for Score {
    type Output = Self;

    /// The sum of the two values.
    fn add(self, other: Self) -> (sum: Self) {
        Score(self.0 + other.0)
    }
}

impl AddSpecImpl for Score {
    open spec fn obeys_add_spec() -> bool {
        true
    }

    open spec fn add_req(self, other: Self) -> bool {
        i32::MIN <= self.0 + other.0 <= i32::MAX
    }

    open spec fn add_spec(self, other: Self) -> Self {
        Score((self.0 + other.0) as i32)
    }
}

impl Sub for Score {
    type Output = Self;

    /// The difference of the two values.
    fn sub(self, other: Self) -> (difference: Self) {
        Score(self.0 - other.0)
    }
}

impl SubSpecImpl for Score {
    open spec fn obeys_sub_spec() -> bool {
        true
    }

    open spec fn sub_req(self, other: Self) -> bool {
        i32::MIN <= self.0 - other.0 <= i32::MAX
    }

    open spec fn sub_spec(self, other: Self) -> Self {
        Score((self.0 - other.0) as i32)
    }
}

impl Mul for Score {
    type Output = Self;

    /// The product of the two values.
    fn mul(self, other: Self) -> (product: Self) {
        Score(self.0 * other.0)
    }
}

impl MulSpecImpl for Score {
    open spec fn obeys_mul_spec() -> bool {
        true
    }

    open spec fn mul_req(self, other: Self) -> bool {
        i32::MIN <= self.0 * other.0 <= i32::MAX
    }

    open spec fn mul_spec(self, other: Self) -> Self {
        Score((self.0 * other.0) as i32)
    }
}

impl Div for Score {
    type Output = Self;

    /// The quotient of the two values.
    fn div(self, other: Self) -> (quotient: Self) {
        Score(self.0 / other.0)
    }
}

impl DivSpecImpl for Score {
    open spec fn obeys_div_spec() -> bool {
        true
    }

    open spec fn div_req(self, other: Self) -> bool {
        other.0 != 0 && !(self.0 == i32::MIN && other.0 == -1)
    }

    open spec fn div_spec(self, other: Self) -> Self {
        Score(truncated_quotient(self.0 as int, other.0 as int) as i32)
    }
}

impl Rem for Score {
    type Output = Self;

    /// The remainder of the two values.
    fn rem(self, other: Self) -> (remainder: Self) {
        Score(self.0 % other.0)
    }
}

impl RemSpecImpl for Score {
    open spec fn obeys_rem_spec() -> bool {
        true
    }

    open spec fn rem_req(self, other: Self) -> bool {
        other.0 != 0 && !(self.0 == i32::MIN && other.0 == -1)
    }

    open spec fn rem_spec(self, other: Self) -> Self {
        Score(truncated_remainder(self.0 as int, other.0 as int) as i32)
    }
}

impl Neg for Score {
    type Output = Self;

    /// The value with its sign changed.
    fn neg(self) -> (negated: Self) {
        Score(-self.0)
    }
}

impl NegSpecImpl for Score {
    open spec fn obeys_neg_spec() -> bool {
        true
    }

    open spec fn neg_req(self) -> bool {
        self.0 != i32::MIN
    }

    open spec fn neg_spec(self) -> Self {
        Score((-self.0) as i32)
    }
}

impl AddAssign for Score {
    /// Replaces the value by the sum of itself and `other`.
    fn add_assign(&mut self, other: Self)
        requires
            i32::MIN <= old(self).0 + other.0 <= i32::MAX,
        ensures
            final(self).0 == old(self).0 + other.0,
    {
        self.0 = self.0 + other.0;
    }
}

impl SubAssign for Score {
    /// Replaces the value by the difference of itself and `other`.
    fn sub_assign(&mut self, other: Self)
        requires
            i32::MIN <= old(self).0 - other.0 <= i32::MAX,
        ensures
            final(self).0 == old(self).0 - other.0,
    {
        self.0 = self.0 - other.0;
    }
}

impl MulAssign for Score {
    /// Replaces the value by the product of itself and `other`.
    fn mul_assign(&mut self, other: Self)
        requires
            i32::MIN <= old(self).0 * other.0 <= i32::MAX,
        ensures
            final(self).0 == old(self).0 * other.0,
    {
        self.0 = self.0 * other.0;
    }
}

impl DivAssign for Score {
    /// Replaces the value by the quotient of itself and `other`.
    fn div_assign(&mut self, other: Self)
        requires
            other.0 != 0 && !(old(self).0 == i32::MIN && other.0 == -1),
        ensures
            final(self).0 == truncated_quotient(old(self).0 as int, other.0 as int),
    {
        proof {
            truncated_quotient_fits(self.0, other.0);
        }
        self.0 = self.0 / other.0;
    }
}

impl RemAssign for Score {
    /// Replaces the value by the remainder of itself and `other`.
    fn rem_assign(&mut self, other: Self)
        requires
            other.0 != 0 && !(old(self).0 == i32::MIN && other.0 == -1),
        ensures
            final(self).0 == truncated_remainder(old(self).0 as int, other.0 as int),
    {
        self.0 = self.0 % other.0;
    }
}

impl From<i32> for Score {
    fn from(value: i32) -> (made: Self) {
        Score(value)
    }
}

impl FromSpecImpl<i32> for Score {
    open spec fn obeys_from_spec() -> bool {
        true
    }

    open spec fn from_spec(value: i32) -> Self {
        Score(value)
    }
}

impl From<Score> for i32 {
    fn from(wrapped: Score) -> (value: i32) {
        wrapped.0
    }
}

impl FromSpecImpl<Score> for i32 {
    open spec fn obeys_from_spec() -> bool {
        true
    }

    open spec fn from_spec(wrapped: Score) -> i32 {
        wrapped.0
    }
}

impl AsRef<i32> for Score {
    fn as_ref(&self) -> (value: &i32)
        ensures
            *value == self.0,
    {
        &self.0
    }
}

impl AsMut<i32> for Score {
    fn as_mut(&mut self) -> (value: &mut i32)
        ensures
            *value == old(self).0,
            final(self).0 == *final(value),
    {
        &mut self.0
    }
}

impl Default for Score {
    /// Zero.
    fn default() -> (made: Self)
        ensures
            made.0 == 0,
    {
        Score(0)
    }
}

} // verus!
