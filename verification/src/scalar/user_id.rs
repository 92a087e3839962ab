//! Identifiers of users.
use vstd::prelude::*;
use core::ops::{Add, AddAssign, Div, DivAssign, Mul, MulAssign, Rem, RemAssign, Sub, SubAssign};
use vstd::std_specs::convert::FromSpecImpl;
use vstd::std_specs::ops::{AddSpecImpl, DivSpecImpl, MulSpecImpl, RemSpecImpl, SubSpecImpl};
use crate::text::{decimal, write_decimal};

verus! {

/// An identifier of a user: an unsigned 32-bit number of its own type. It
/// is never taken for a plain number or for a value of another such type.
#[derive(Debug, Clone, Copy, PartialEq, Eq, Structural, PartialOrd, Ord, Hash)]
pub struct UserId(pub u32);

impl UserId {
    /// The identifier of a user with the given value.
    pub fn new(value: u32) -> (made: Self)
        ensures
            made.0 == value,
    {
        UserId(value)
    }

    /// The value inside.
    pub fn value(self) -> (value: u32)
        ensures
            value == self.0,
    {
        self.0
    }

    /// A reference to the value inside.
    pub fn as_ref(&self) -> (value: &u32)
        ensures
            *value == self.0,
    {
        &self.0
    }

    /// A mutable reference to the value inside: what is written through
    /// it is the new value.
    pub fn as_mut(&mut self) -> (value: &mut u32)
        ensures
            *value == old(self).0,
            final(self).0 == *final(value),
    {
        &mut self.0
    }

    /// Whether the value is even.
    pub fn is_even(self) -> (even: bool)
        ensures
            even == (self.0 % 2 == 0),
    {
        self.0 % 2 == 0
    }

    /// Whether the value is odd.
    pub fn is_odd(self) -> (odd: bool)
        ensures
            odd == (self.0 % 2 == 1),
    {
        self.0 % 2 != 0
    }

    /// The value after this one.
    pub fn next(self) -> (after: Self)
        requires
            self.0 < u32::MAX,
        ensures
            after.0 == self.0 + 1,
    {
        UserId(self.0 + 1)
    }

    /// The value before this one.
    pub fn prev(self) -> (before: Self)
        requires
            self.0 > 0,
        ensures
            before.0 == self.0 - 1,
    {
        UserId(self.0 - 1)
    }

    /// The value before this one, or nothing if this one is zero.
    pub fn checked_prev(self) -> (before: Option<Self>)
        ensures
            match before {
                Some(found) => self.0 > 0 && found.0 == self.0 - 1,
                None => self.0 == 0,
            },
    {
        if self.0 == 0 {
            None
        } else {
            Some(UserId(self.0 - 1))
        }
    }

    /// The value in decimal digits.
    pub fn to_string(&self) -> (text: String)
        ensures
            text@ == decimal(self.0 as nat),
    {
        let mut text = String::new();
        write_decimal(&mut text, self.0);
        text
    }
}

impl Add for UserId {
    type Output = Self;

    /// The sum of the two values.
    fn add(self, other: Self) -> (sum: Self) {
        UserId(self.0 + other.0)
    }
}

impl AddSpecImpl for UserId {
    open spec fn obeys_add_spec() -> bool {
        true
    }

    open spec fn add_req(self, other: Self) -> bool {
        0 <= self.0 + other.0 <= u32::MAX
    }

    open spec fn add_spec(self, other: Self) -> Self {
        UserId((self.0 + other.0) as u32)
    }
}

impl Sub for UserId {
    type Output = Self;

    /// The difference of the two values.
    fn sub(self, other: Self) -> (difference: Self) {
        UserId(self.0 - other.0)
    }
}

impl SubSpecImpl for UserId {
    open spec fn obeys_sub_spec() -> bool {
        true
    }

    open spec fn sub_req(self, other: Self) -> bool {
        0 <= self.0 - other.0 <= u32::MAX
    }

    open spec fn sub_spec(self, other: Self) -> Self {
        UserId((self.0 - other.0) as u32)
    }
}

impl Mul for UserId {
    type Output = Self;

    /// The product of the two values.
    fn mul(self, other: Self) -> (product: Self) {
        UserId(self.0 * other.0)
    }
}

impl MulSpecImpl for UserId {
    open spec fn obeys_mul_spec() -> bool {
        true
    }

    open spec fn mul_req(self, other: Self) -> bool {
        0 <= self.0 * other.0 <= u32::MAX
    }

    open spec fn mul_spec(self, other: Self) -> Self {
        UserId((self.0 * other.0) as u32)
    }
}

impl Div for UserId {
    type Output = Self;

    /// The quotient of the two values.
    fn div(self, other: Self) -> (quotient: Self) {
        UserId(self.0 / other.0)
    }
}

impl DivSpecImpl for UserId {
    open spec fn obeys_div_spec() -> bool {
        true
    }

    open spec fn div_req(self, other: Self) -> bool {
        other.0 != 0
    }

    open spec fn div_spec(self, other: Self) -> Self {
        UserId(self.0 / other.0)
    }
}

impl Rem for UserId {
    type Output = Self;

    /// The remainder of the two values.
    fn rem(self, other: Self) -> (remainder: Self) {
        UserId(self.0 % other.0)
    }
}

impl RemSpecImpl for UserId {
    open spec fn obeys_rem_spec() -> bool {
        true
    }

    open spec fn rem_req(self, other: Self) -> bool {
        other.0 != 0
    }

    open spec fn rem_spec(self, other: Self) -> Self {
        UserId(self.0 % other.0)
    }
}

impl AddAssign for UserId {
    /// Replaces the value by the sum of itself and `other`.
    fn add_assign(&mut self, other: Self)
        requires
            0 <= old(self).0 + other.0 <= u32::MAX,
        ensures
            final(self).0 == old(self).0 + other.0,
    {
        self.0 = self.0 + other.0;
    }
}

impl SubAssign for UserId {
    /// Replaces the value by the difference of itself and `other`.
    fn sub_assign(&mut self, other: Self)
        requires
            0 <= old(self).0 - other.0 <= u32::MAX,
        ensures
            final(self).0 == old(self).0 - other.0,
    {
        self.0 = self.0 - other.0;
    }
}

impl MulAssign for UserId {
    /// Replaces the value by the product of itself and `other`.
    fn mul_assign(&mut self, other: Self)
        requires
            0 <= old(self).0 * other.0 <= u32::MAX,
        ensures
            final(self).0 == old(self).0 * other.0,
    {
        self.0 = self.0 * other.0;
    }
}

impl DivAssign for UserId {
    /// Replaces the value by the quotient of itself and `other`.
    fn div_assign(&mut self, other: Self)
        requires
            other.0 != 0,
        ensures
            final(self).0 == old(self).0 / other.0,
    {
        self.0 = self.0 / other.0;
    }
}

impl RemAssign for UserId {
    /// Replaces the value by the remainder of itself and `other`.
    fn rem_assign(&mut self, other: Self)
        requires
            other.0 != 0,
        ensures
            final(self).0 == old(self).0 % other.0,
    {
        self.0 = self.0 % other.0;
    }
}

impl From<u32> for UserId {
    fn from(value: u32) -> (made: Self) {
        UserId(value)
    }
}

impl FromSpecImpl<u32> for UserId {
    open spec fn obeys_from_spec() -> bool {
        true
    }

    open spec fn from_spec(value: u32) -> Self {
        UserId(value)
    }
}

impl From<UserId> for u32 {
    fn from(wrapped: UserId) -> (value: u32) {
        wrapped.0
    }
}

impl FromSpecImpl<UserId> for u32 {
    open spec fn obeys_from_spec() -> bool {
        true
    }

    open spec fn from_spec(wrapped: UserId) -> u32 {
        wrapped.0
    }
}

impl AsRef<u32> for UserId {
    fn as_ref(&self) -> (value: &u32)
        ensures
            *value == self.0,
    {
        &self.0
    }
}

impl AsMut<u32> for UserId {
    fn as_mut(&mut self) -> (value: &mut u32)
        ensures
            *value == old(self).0,
            final(self).0 == *final(value),
    {
        &mut self.0
    }
}

impl Default for UserId {
    /// Zero.
    fn default() -> (made: Self)
        ensures
            made.0 == 0,
    {
        UserId(0)
    }
}

} // verus!
