//! Lengths in metres.
use vstd::prelude::*;
use core::fmt::Display;
use core::ops::{
    Add, AddAssign, Div, DivAssign, Mul, MulAssign, Neg, Rem, RemAssign, Sub, SubAssign,
};
use vstd::std_specs::convert::FromSpecImpl;
use vstd::std_specs::ops::{
    AddSpec, AddSpecImpl, DivSpec, DivSpecImpl, MulSpec, MulSpecImpl, NegSpec, NegSpecImpl,
    RemSpec, RemSpecImpl, SubSpec, SubSpecImpl,
};
use vstd::string::to_string_from_display_ensures;

verus! {

/// A length in metres, over any number type `T`. Two values are added,
/// compared and so on as `T` does it; a value of another unit is never
/// taken for one of this unit.
#[derive(Debug, Clone, Copy, PartialEq, PartialOrd)]
pub struct Meters<T>(pub T);

impl<T> Meters<T> {
    /// The length in metres with the given value.
    pub fn new(value: T) -> (made: Self)
        ensures
            made.0 == value,
    {
        Meters(value)
    }

    /// The value inside.
    pub fn value(self) -> (value: T)
        ensures
            value == self.0,
    {
        self.0
    }

    /// A reference to the value inside.
    pub fn as_ref(&self) -> (value: &T)
        ensures
            *value == self.0,
    {
        &self.0
    }

    /// A mutable reference to the value inside: what is written through
    /// it is the new value.
    pub fn as_mut(&mut self) -> (value: &mut T)
        ensures
            *value == old(self).0,
            final(self).0 == *final(value),
    {
        &mut self.0
    }
}

impl<T: Display> Meters<T> {
    /// The value as its number type prints it.
    pub fn to_string(&self) -> (text: String)
        ensures
            to_string_from_display_ensures::<T>(&self.0, text),
    {
        self.0.to_string()
    }
}

impl<T: Add<Output = T>> Add for Meters<T> {
    type Output = Self;

    /// The sum of the two values, as the number type computes it.
    fn add(self, other: Self) -> (sum: Self) {
        Meters(self.0.add(other.0))
    }
}

impl<T: Add<Output = T>> AddSpecImpl for Meters<T> {
    open spec fn obeys_add_spec() -> bool {
        T::obeys_add_spec()
    }

    open spec fn add_req(self, other: Self) -> bool {
        self.0.add_req(other.0)
    }

    open spec fn add_spec(self, other: Self) -> Self {
        Meters(self.0.add_spec(other.0))
    }
}

impl<T: Sub<Output = T>> Sub for Meters<T> {
    type Output = Self;

    /// The difference of the two values, as the number type computes it.
    fn sub(self, other: Self) -> (difference: Self) {
        Meters(self.0.sub(other.0))
    }
}

impl<T: Sub<Output = T>> SubSpecImpl for Meters<T> {
    open spec fn obeys_sub_spec() -> bool {
        T::obeys_sub_spec()
    }

    open spec fn sub_req(self, other: Self) -> bool {
        self.0.sub_req(other.0)
    }

    open spec fn sub_spec(self, other: Self) -> Self {
        Meters(self.0.sub_spec(other.0))
    }
}

impl<T: Mul<Output = T>> Mul for Meters<T> {
    type Output = Self;

    /// The product of the two values, as the number type computes it.
    fn mul(self, other: Self) -> (product: Self) {
        Meters(self.0.mul(other.0))
    }
}

impl<T: Mul<Output = T>> MulSpecImpl for Meters<T> {
    open spec fn obeys_mul_spec() -> bool {
        T::obeys_mul_spec()
    }

    open spec fn mul_req(self, other: Self) -> bool {
        self.0.mul_req(other.0)
    }

    open spec fn mul_spec(self, other: Self) -> Self {
        Meters(self.0.mul_spec(other.0))
    }
}

impl<T: Div<Output = T>> Div for Meters<T> {
    type Output = Self;

    /// The quotient of the two values, as the number type computes it.
    fn div(self, other: Self) -> (quotient: Self) {
        Meters(self.0.div(other.0))
    }
}

impl<T: Div<Output = T>> DivSpecImpl for Meters<T> {
    open spec fn obeys_div_spec() -> bool {
        T::obeys_div_spec()
    }

    open spec fn div_req(self, other: Self) -> bool {
        self.0.div_req(other.0)
    }

    open spec fn div_spec(self, other: Self) -> Self {
        Meters(self.0.div_spec(other.0))
    }
}

impl<T: Rem<Output = T>> Rem for Meters<T> {
    type Output = Self;

    /// The remainder of the two values, as the number type computes it.
    fn rem(self, other: Self) -> (remainder: Self) {
        Meters(self.0.rem(other.0))
    }
}

impl<T: Rem<Output = T>> RemSpecImpl for Meters<T> {
    open spec fn obeys_rem_spec() -> bool {
        T::obeys_rem_spec()
    }

    open spec fn rem_req(self, other: Self) -> bool {
        self.0.rem_req(other.0)
    }

    open spec fn rem_spec(self, other: Self) -> Self {
        Meters(self.0.rem_spec(other.0))
    }
}

impl<T: Neg<Output = T>> Neg for Meters<T> {
    type Output = Self;

    /// The value with its sign changed.
    fn neg(self) -> (negated: Self) {
        Meters(self.0.neg())
    }
}

impl<T: Neg<Output = T>> NegSpecImpl for Meters<T> {
    open spec fn obeys_neg_spec() -> bool {
        T::obeys_neg_spec()
    }

    open spec fn neg_req(self) -> bool {
        self.0.neg_req()
    }

    open spec fn neg_spec(self) -> Self {
        Meters(self.0.neg_spec())
    }
}

impl<T: Add<Output = T> + Copy> AddAssign for Meters<T> {
    /// Replaces the value by the sum of itself and `other`.
    fn add_assign(&mut self, other: Self)
        requires
            old(self).0.add_req(other.0),
        ensures
            T::obeys_add_spec() ==> final(self).0 == old(self).0.add_spec(other.0),
    {
        self.0 = self.0.add(other.0);
    }
}

impl<T: Sub<Output = T> + Copy> SubAssign for Meters<T> {
    /// Replaces the value by the difference of itself and `other`.
    fn sub_assign(&mut self, other: Self)
        requires
            old(self).0.sub_req(other.0),
        ensures
            T::obeys_sub_spec() ==> final(self).0 == old(self).0.sub_spec(other.0),
    {
        self.0 = self.0.sub(other.0);
    }
}

impl<T: Mul<Output = T> + Copy> MulAssign for Meters<T> {
    /// Replaces the value by the product of itself and `other`.
    fn mul_assign(&mut self, other: Self)
        requires
            old(self).0.mul_req(other.0),
        ensures
            T::obeys_mul_spec() ==> final(self).0 == old(self).0.mul_spec(other.0),
    {
        self.0 = self.0.mul(other.0);
    }
}

impl<T: Div<Output = T> + Copy> DivAssign for Meters<T> {
    /// Replaces the value by the quotient of itself and `other`.
    fn div_assign(&mut self, other: Self)
        requires
            old(self).0.div_req(other.0),
        ensures
            T::obeys_div_spec() ==> final(self).0 == old(self).0.div_spec(other.0),
    {
        self.0 = self.0.div(other.0);
    }
}

impl<T: Rem<Output = T> + Copy> RemAssign for Meters<T> {
    /// Replaces the value by the remainder of itself and `other`.
    fn rem_assign(&mut self, other: Self)
        requires
            old(self).0.rem_req(other.0),
        ensures
            T::obeys_rem_spec() ==> final(self).0 == old(self).0.rem_spec(other.0),
    {
        self.0 = self.0.rem(other.0);
    }
}

impl<T> From<T> for Meters<T> {
    fn from(value: T) -> (made: Self) {
        Meters(value)
    }
}

impl<T> FromSpecImpl<T> for Meters<T> {
    open spec fn obeys_from_spec() -> bool {
        true
    }

    open spec fn from_spec(value: T) -> Self {
        Meters(value)
    }
}

impl<T> AsRef<T> for Meters<T> {
    fn as_ref(&self) -> (value: &T)
        ensures
            *value == self.0,
    {
        &self.0
    }
}

impl<T> AsMut<T> for Meters<T> {
    fn as_mut(&mut self) -> (value: &mut T)
        ensures
            *value == old(self).0,
            final(self).0 == *final(value),
    {
        &mut self.0
    }
}

impl<T: Default> Default for Meters<T> {
    /// The default of the number type, wrapped.
    fn default() -> (made: Self)
        ensures
            call_ensures(T::default, (), made.0),
    {
        Meters(T::default())
    }
}

} // verus!
