//! Rust's arithmetic operators on constructions, each the corresponding
//! `Algebra` operation, with the same domain and the same result.
use vstd::prelude::*;
use core::ops::{Neg, Add, Sub, Mul, Div};
use vstd::std_specs::ops::{
    NegSpecImpl, AddSpecImpl, SubSpecImpl, MulSpecImpl, DivSpecImpl,
};
use crate::model::{
    neg_seq, add_seq, sub_seq, shift_seq, scale_seq, div_scalar_seq, mul_seq, mul_fits, div_seq,
    div_fits, inv_seq, inv_fits,
};
use crate::traits::{Hypercomplex, val, fits, Algebra};
use crate::construct::Construct;

verus! {

/// Negation of every coordinate.
impl<T: Algebra<T>, U: Algebra<T>> Neg for Construct<T, U> {
    type Output = Self;

    fn neg(self) -> (r: Self) {
        let r = <Self as Algebra<T>>::neg(self);
        proof {
            r.lemma_coords();
        }
        r
    }
}

impl<T: Algebra<T>, U: Algebra<T>> NegSpecImpl for Construct<T, U> {
    open spec fn obeys_neg_spec() -> bool {
        true
    }

    open spec fn neg_req(self) -> bool {
        fits::<Self>(neg_seq(self.coords()))
    }

    open spec fn neg_spec(self) -> Self {
        Self::from_coords(neg_seq(self.coords()))
    }
}

/// Component-wise sum.
impl<T: Algebra<T>, U: Algebra<T>> Add for Construct<T, U> {
    type Output = Self;

    fn add(self, other: Self) -> (r: Self) {
        let r = <Self as Algebra<T>>::add(self, other);
        proof {
            r.lemma_coords();
        }
        r
    }
}

impl<T: Algebra<T>, U: Algebra<T>> AddSpecImpl for Construct<T, U> {
    open spec fn obeys_add_spec() -> bool {
        true
    }

    open spec fn add_req(self, other: Self) -> bool {
        fits::<Self>(add_seq(self.coords(), other.coords()))
    }

    open spec fn add_spec(self, other: Self) -> Self {
        Self::from_coords(add_seq(self.coords(), other.coords()))
    }
}

/// Component-wise difference.
impl<T: Algebra<T>, U: Algebra<T>> Sub for Construct<T, U> {
    type Output = Self;

    fn sub(self, other: Self) -> (r: Self) {
        let r = <Self as Algebra<T>>::sub(self, other);
        proof {
            r.lemma_coords();
        }
        r
    }
}

impl<T: Algebra<T>, U: Algebra<T>> SubSpecImpl for Construct<T, U> {
    open spec fn obeys_sub_spec() -> bool {
        true
    }

    open spec fn sub_req(self, other: Self) -> bool {
        fits::<Self>(sub_seq(self.coords(), other.coords()))
    }

    open spec fn sub_spec(self, other: Self) -> Self {
        Self::from_coords(sub_seq(self.coords(), other.coords()))
    }
}

/// The Cayley–Dickson product.
impl<T: Algebra<T>, U: Algebra<T>> Mul for Construct<T, U> {
    type Output = Self;

    fn mul(self, other: Self) -> (r: Self) {
        let r = <Self as Algebra<T>>::mul(self, other);
        proof {
            r.lemma_coords();
        }
        r
    }
}

impl<T: Algebra<T>, U: Algebra<T>> MulSpecImpl for Construct<T, U> {
    open spec fn obeys_mul_spec() -> bool {
        true
    }

    open spec fn mul_req(self, other: Self) -> bool {
        mul_fits(Self::depth(), self.coords(), other.coords(), Self::lo(), Self::hi())
    }

    open spec fn mul_spec(self, other: Self) -> Self {
        Self::from_coords(mul_seq(Self::depth(), self.coords(), other.coords()))
    }
}

/// Multiplication by the inverse of `other`.
impl<T: Algebra<T>, U: Algebra<T>> Div for Construct<T, U> {
    type Output = Self;

    fn div(self, other: Self) -> (r: Self) {
        let r = <Self as Algebra<T>>::div(self, other);
        proof {
            r.lemma_coords();
        }
        r
    }
}

impl<T: Algebra<T>, U: Algebra<T>> DivSpecImpl for Construct<T, U> {
    open spec fn obeys_div_spec() -> bool {
        true
    }

    open spec fn div_req(self, other: Self) -> bool {
        div_fits(Self::depth(), self.coords(), other.coords(), Self::lo(), Self::hi())
    }

    open spec fn div_spec(self, other: Self) -> Self {
        Self::from_coords(div_seq(Self::depth(), self.coords(), other.coords()))
    }
}

/// The scalar added to the real component.
impl<T: Algebra<T>, U: Algebra<T>> Add<T> for Construct<T, U> {
    type Output = Self;

    fn add(self, other: T) -> (r: Self) {
        let r = self.add_scalar(other);
        proof {
            r.lemma_coords();
        }
        r
    }
}

impl<T: Algebra<T>, U: Algebra<T>> AddSpecImpl<T> for Construct<T, U> {
    open spec fn obeys_add_spec() -> bool {
        true
    }

    open spec fn add_req(self, other: T) -> bool {
        fits::<Self>(shift_seq(self.coords(), val(other)))
    }

    open spec fn add_spec(self, other: T) -> Self {
        Self::from_coords(shift_seq(self.coords(), val(other)))
    }
}

/// The scalar subtracted from the real component.
impl<T: Algebra<T>, U: Algebra<T>> Sub<T> for Construct<T, U> {
    type Output = Self;

    fn sub(self, other: T) -> (r: Self) {
        let r = self.sub_scalar(other);
        proof {
            r.lemma_coords();
        }
        r
    }
}

impl<T: Algebra<T>, U: Algebra<T>> SubSpecImpl<T> for Construct<T, U> {
    open spec fn obeys_sub_spec() -> bool {
        true
    }

    open spec fn sub_req(self, other: T) -> bool {
        fits::<Self>(shift_seq(self.coords(), -val(other)))
    }

    open spec fn sub_spec(self, other: T) -> Self {
        Self::from_coords(shift_seq(self.coords(), -val(other)))
    }
}

/// Every component scaled by the scalar.
impl<T: Algebra<T>, U: Algebra<T>> Mul<T> for Construct<T, U> {
    type Output = Self;

    fn mul(self, other: T) -> (r: Self) {
        let r = self.mul_scalar(other);
        proof {
            r.lemma_coords();
        }
        r
    }
}

impl<T: Algebra<T>, U: Algebra<T>> MulSpecImpl<T> for Construct<T, U> {
    open spec fn obeys_mul_spec() -> bool {
        true
    }

    open spec fn mul_req(self, other: T) -> bool {
        fits::<Self>(scale_seq(self.coords(), val(other)))
    }

    open spec fn mul_spec(self, other: T) -> Self {
        Self::from_coords(scale_seq(self.coords(), val(other)))
    }
}

/// Every component divided by the scalar, rounding toward zero.
impl<T: Algebra<T>, U: Algebra<T>> Div<T> for Construct<T, U> {
    type Output = Self;

    fn div(self, other: T) -> (r: Self) {
        let r = self.div_scalar(other);
        proof {
            r.lemma_coords();
        }
        r
    }
}

impl<T: Algebra<T>, U: Algebra<T>> DivSpecImpl<T> for Construct<T, U> {
    open spec fn obeys_div_spec() -> bool {
        true
    }

    open spec fn div_req(self, other: T) -> bool {
        val(other) != 0 && fits::<Self>(div_scalar_seq(self.coords(), val(other)))
    }

    open spec fn div_spec(self, other: T) -> Self {
        Self::from_coords(div_scalar_seq(self.coords(), val(other)))
    }
}

/// The scalar on the left: added to the real component.
impl<U: Algebra<i32>> Add<Construct<i32, U>> for i32 {
    type Output = Construct<i32, U>;

    fn add(self, other: Construct<i32, U>) -> (r: Construct<i32, U>) {
        let r = other.add_scalar(self);
        proof {
            r.lemma_coords();
        }
        r
    }
}

impl<U: Algebra<i32>> AddSpecImpl<Construct<i32, U>> for i32 {
    open spec fn obeys_add_spec() -> bool {
        true
    }

    open spec fn add_req(self, other: Construct<i32, U>) -> bool {
        fits::<Construct<i32, U>>(shift_seq(other.coords(), self as int))
    }

    open spec fn add_spec(self, other: Construct<i32, U>) -> Construct<i32, U> {
        Construct::<i32, U>::from_coords(shift_seq(other.coords(), self as int))
    }
}

/// The scalar on the left: `-other + self`.
impl<U: Algebra<i32>> Sub<Construct<i32, U>> for i32 {
    type Output = Construct<i32, U>;

    fn sub(self, other: Construct<i32, U>) -> (r: Construct<i32, U>) {
        let r = <Construct<i32, U> as Algebra<i32>>::neg(other).add_scalar(self);
        proof {
            r.lemma_coords();
        }
        r
    }
}

impl<U: Algebra<i32>> SubSpecImpl<Construct<i32, U>> for i32 {
    open spec fn obeys_sub_spec() -> bool {
        true
    }

    open spec fn sub_req(self, other: Construct<i32, U>) -> bool {
        fits::<Construct<i32, U>>(neg_seq(other.coords())) && fits::<Construct<i32, U>>(shift_seq(neg_seq(other.coords()), self as int))
    }

    open spec fn sub_spec(self, other: Construct<i32, U>) -> Construct<i32, U> {
        Construct::<i32, U>::from_coords(shift_seq(neg_seq(other.coords()), self as int))
    }
}

/// The scalar on the left: every component scaled by it.
impl<U: Algebra<i32>> Mul<Construct<i32, U>> for i32 {
    type Output = Construct<i32, U>;

    fn mul(self, other: Construct<i32, U>) -> (r: Construct<i32, U>) {
        let r = other.mul_scalar(self);
        proof {
            r.lemma_coords();
        }
        r
    }
}

impl<U: Algebra<i32>> MulSpecImpl<Construct<i32, U>> for i32 {
    open spec fn obeys_mul_spec() -> bool {
        true
    }

    open spec fn mul_req(self, other: Construct<i32, U>) -> bool {
        fits::<Construct<i32, U>>(scale_seq(other.coords(), self as int))
    }

    open spec fn mul_spec(self, other: Construct<i32, U>) -> Construct<i32, U> {
        Construct::<i32, U>::from_coords(scale_seq(other.coords(), self as int))
    }
}

/// The scalar on the left: `other.inv() * self`.
impl<U: Algebra<i32>> Div<Construct<i32, U>> for i32 {
    type Output = Construct<i32, U>;

    fn div(self, other: Construct<i32, U>) -> (r: Construct<i32, U>) {
        let r = other.inv().mul_scalar(self);
        proof {
            r.lemma_coords();
        }
        r
    }
}

impl<U: Algebra<i32>> DivSpecImpl<Construct<i32, U>> for i32 {
    open spec fn obeys_div_spec() -> bool {
        true
    }

    open spec fn div_req(self, other: Construct<i32, U>) -> bool {
        inv_fits(Construct::<i32, U>::depth(), other.coords(), Construct::<i32, U>::lo(), Construct::<i32, U>::hi()) && fits::<Construct<i32, U>>(scale_seq(inv_seq(Construct::<i32, U>::depth(), other.coords()), self as int))
    }

    open spec fn div_spec(self, other: Construct<i32, U>) -> Construct<i32, U> {
        Construct::<i32, U>::from_coords(scale_seq(inv_seq(Construct::<i32, U>::depth(), other.coords()), self as int))
    }
}

/// The scalar on the left: added to the real component.
impl<U: Algebra<i64>> Add<Construct<i64, U>> for i64 {
    type Output = Construct<i64, U>;

    fn add(self, other: Construct<i64, U>) -> (r: Construct<i64, U>) {
        let r = other.add_scalar(self);
        proof {
            r.lemma_coords();
        }
        r
    }
}

impl<U: Algebra<i64>> AddSpecImpl<Construct<i64, U>> for i64 {
    open spec fn obeys_add_spec() -> bool {
        true
    }

    open spec fn add_req(self, other: Construct<i64, U>) -> bool {
        fits::<Construct<i64, U>>(shift_seq(other.coords(), self as int))
    }

    open spec fn add_spec(self, other: Construct<i64, U>) -> Construct<i64, U> {
        Construct::<i64, U>::from_coords(shift_seq(other.coords(), self as int))
    }
}

/// The scalar on the left: `-other + self`.
impl<U: Algebra<i64>> Sub<Construct<i64, U>> for i64 {
    type Output = Construct<i64, U>;

    fn sub(self, other: Construct<i64, U>) -> (r: Construct<i64, U>) {
        let r = <Construct<i64, U> as Algebra<i64>>::neg(other).add_scalar(self);
        proof {
            r.lemma_coords();
        }
        r
    }
}

impl<U: Algebra<i64>> SubSpecImpl<Construct<i64, U>> for i64 {
    open spec fn obeys_sub_spec() -> bool {
        true
    }

    open spec fn sub_req(self, other: Construct<i64, U>) -> bool {
        fits::<Construct<i64, U>>(neg_seq(other.coords())) && fits::<Construct<i64, U>>(shift_seq(neg_seq(other.coords()), self as int))
    }

    open spec fn sub_spec(self, other: Construct<i64, U>) -> Construct<i64, U> {
        Construct::<i64, U>::from_coords(shift_seq(neg_seq(other.coords()), self as int))
    }
}

/// The scalar on the left: every component scaled by it.
impl<U: Algebra<i64>> Mul<Construct<i64, U>> for i64 {
    type Output = Construct<i64, U>;

    fn mul(self, other: Construct<i64, U>) -> (r: Construct<i64, U>) {
        let r = other.mul_scalar(self);
        proof {
            r.lemma_coords();
        }
        r
    }
}

impl<U: Algebra<i64>> MulSpecImpl<Construct<i64, U>> for i64 {
    open spec fn obeys_mul_spec() -> bool {
        true
    }

    open spec fn mul_req(self, other: Construct<i64, U>) -> bool {
        fits::<Construct<i64, U>>(scale_seq(other.coords(), self as int))
    }

    open spec fn mul_spec(self, other: Construct<i64, U>) -> Construct<i64, U> {
        Construct::<i64, U>::from_coords(scale_seq(other.coords(), self as int))
    }
}

/// The scalar on the left: `other.inv() * self`.
impl<U: Algebra<i64>> Div<Construct<i64, U>> for i64 {
    type Output = Construct<i64, U>;

    fn div(self, other: Construct<i64, U>) -> (r: Construct<i64, U>) {
        let r = other.inv().mul_scalar(self);
        proof {
            r.lemma_coords();
        }
        r
    }
}

impl<U: Algebra<i64>> DivSpecImpl<Construct<i64, U>> for i64 {
    open spec fn obeys_div_spec() -> bool {
        true
    }

    open spec fn div_req(self, other: Construct<i64, U>) -> bool {
        inv_fits(Construct::<i64, U>::depth(), other.coords(), Construct::<i64, U>::lo(), Construct::<i64, U>::hi()) && fits::<Construct<i64, U>>(scale_seq(inv_seq(Construct::<i64, U>::depth(), other.coords()), self as int))
    }

    open spec fn div_spec(self, other: Construct<i64, U>) -> Construct<i64, U> {
        Construct::<i64, U>::from_coords(scale_seq(inv_seq(Construct::<i64, U>::depth(), other.coords()), self as int))
    }
}

/// The scalar on the left: added to the real component.
impl<U: Algebra<i16>> Add<Construct<i16, U>> for i16 {
    type Output = Construct<i16, U>;

    fn add(self, other: Construct<i16, U>) -> (r: Construct<i16, U>) {
        let r = other.add_scalar(self);
        proof {
            r.lemma_coords();
        }
        r
    }
}

impl<U: Algebra<i16>> AddSpecImpl<Construct<i16, U>> for i16 {
    open spec fn obeys_add_spec() -> bool {
        true
    }

    open spec fn add_req(self, other: Construct<i16, U>) -> bool {
        fits::<Construct<i16, U>>(shift_seq(other.coords(), self as int))
    }

    open spec fn add_spec(self, other: Construct<i16, U>) -> Construct<i16, U> {
        Construct::<i16, U>::from_coords(shift_seq(other.coords(), self as int))
    }
}

/// The scalar on the left: `-other + self`.
impl<U: Algebra<i16>> Sub<Construct<i16, U>> for i16 {
    type Output = Construct<i16, U>;

    fn sub(self, other: Construct<i16, U>) -> (r: Construct<i16, U>) {
        let r = <Construct<i16, U> as Algebra<i16>>::neg(other).add_scalar(self);
        proof {
            r.lemma_coords();
        }
        r
    }
}

impl<U: Algebra<i16>> SubSpecImpl<Construct<i16, U>> for i16 {
    open spec fn obeys_sub_spec() -> bool {
        true
    }

    open spec fn sub_req(self, other: Construct<i16, U>) -> bool {
        fits::<Construct<i16, U>>(neg_seq(other.coords())) && fits::<Construct<i16, U>>(shift_seq(neg_seq(other.coords()), self as int))
    }

    open spec fn sub_spec(self, other: Construct<i16, U>) -> Construct<i16, U> {
        Construct::<i16, U>::from_coords(shift_seq(neg_seq(other.coords()), self as int))
    }
}

/// The scalar on the left: every component scaled by it.
impl<U: Algebra<i16>> Mul<Construct<i16, U>> for i16 {
    type Output = Construct<i16, U>;

    fn mul(self, other: Construct<i16, U>) -> (r: Construct<i16, U>) {
        let r = other.mul_scalar(self);
        proof {
            r.lemma_coords();
        }
        r
    }
}

impl<U: Algebra<i16>> MulSpecImpl<Construct<i16, U>> for i16 {
    open spec fn obeys_mul_spec() -> bool {
        true
    }

    open spec fn mul_req(self, other: Construct<i16, U>) -> bool {
        fits::<Construct<i16, U>>(scale_seq(other.coords(), self as int))
    }

    open spec fn mul_spec(self, other: Construct<i16, U>) -> Construct<i16, U> {
        Construct::<i16, U>::from_coords(scale_seq(other.coords(), self as int))
    }
}

/// The scalar on the left: `other.inv() * self`.
impl<U: Algebra<i16>> Div<Construct<i16, U>> for i16 {
    type Output = Construct<i16, U>;

    fn div(self, other: Construct<i16, U>) -> (r: Construct<i16, U>) {
        let r = other.inv().mul_scalar(self);
        proof {
            r.lemma_coords();
        }
        r
    }
}

impl<U: Algebra<i16>> DivSpecImpl<Construct<i16, U>> for i16 {
    open spec fn obeys_div_spec() -> bool {
        true
    }

    open spec fn div_req(self, other: Construct<i16, U>) -> bool {
        inv_fits(Construct::<i16, U>::depth(), other.coords(), Construct::<i16, U>::lo(), Construct::<i16, U>::hi()) && fits::<Construct<i16, U>>(scale_seq(inv_seq(Construct::<i16, U>::depth(), other.coords()), self as int))
    }

    open spec fn div_spec(self, other: Construct<i16, U>) -> Construct<i16, U> {
        Construct::<i16, U>::from_coords(scale_seq(inv_seq(Construct::<i16, U>::depth(), other.coords()), self as int))
    }
}

/// The scalar on the left: added to the real component.
impl<U: Algebra<i8>> Add<Construct<i8, U>> for i8 {
    type Output = Construct<i8, U>;

    fn add(self, other: Construct<i8, U>) -> (r: Construct<i8, U>) {
        let r = other.add_scalar(self);
        proof {
            r.lemma_coords();
        }
        r
    }
}

impl<U: Algebra<i8>> AddSpecImpl<Construct<i8, U>> for i8 {
    open spec fn obeys_add_spec() -> bool {
        true
    }

    open spec fn add_req(self, other: Construct<i8, U>) -> bool {
        fits::<Construct<i8, U>>(shift_seq(other.coords(), self as int))
    }

    open spec fn add_spec(self, other: Construct<i8, U>) -> Construct<i8, U> {
        Construct::<i8, U>::from_coords(shift_seq(other.coords(), self as int))
    }
}

/// The scalar on the left: `-other + self`.
impl<U: Algebra<i8>> Sub<Construct<i8, U>> for i8 {
    type Output = Construct<i8, U>;

    fn sub(self, other: Construct<i8, U>) -> (r: Construct<i8, U>) {
        let r = <Construct<i8, U> as Algebra<i8>>::neg(other).add_scalar(self);
        proof {
            r.lemma_coords();
        }
        r
    }
}

impl<U: Algebra<i8>> SubSpecImpl<Construct<i8, U>> for i8 {
    open spec fn obeys_sub_spec() -> bool {
        true
    }

    open spec fn sub_req(self, other: Construct<i8, U>) -> bool {
        fits::<Construct<i8, U>>(neg_seq(other.coords())) && fits::<Construct<i8, U>>(shift_seq(neg_seq(other.coords()), self as int))
    }

    open spec fn sub_spec(self, other: Construct<i8, U>) -> Construct<i8, U> {
        Construct::<i8, U>::from_coords(shift_seq(neg_seq(other.coords()), self as int))
    }
}

/// The scalar on the left: every component scaled by it.
impl<U: Algebra<i8>> Mul<Construct<i8, U>> for i8 {
    type Output = Construct<i8, U>;

    fn mul(self, other: Construct<i8, U>) -> (r: Construct<i8, U>) {
        let r = other.mul_scalar(self);
        proof {
            r.lemma_coords();
        }
        r
    }
}

impl<U: Algebra<i8>> MulSpecImpl<Construct<i8, U>> for i8 {
    open spec fn obeys_mul_spec() -> bool {
        true
    }

    open spec fn mul_req(self, other: Construct<i8, U>) -> bool {
        fits::<Construct<i8, U>>(scale_seq(other.coords(), self as int))
    }

    open spec fn mul_spec(self, other: Construct<i8, U>) -> Construct<i8, U> {
        Construct::<i8, U>::from_coords(scale_seq(other.coords(), self as int))
    }
}

/// The scalar on the left: `other.inv() * self`.
impl<U: Algebra<i8>> Div<Construct<i8, U>> for i8 {
    type Output = Construct<i8, U>;

    fn div(self, other: Construct<i8, U>) -> (r: Construct<i8, U>) {
        let r = other.inv().mul_scalar(self);
        proof {
            r.lemma_coords();
        }
        r
    }
}

impl<U: Algebra<i8>> DivSpecImpl<Construct<i8, U>> for i8 {
    open spec fn obeys_div_spec() -> bool {
        true
    }

    open spec fn div_req(self, other: Construct<i8, U>) -> bool {
        inv_fits(Construct::<i8, U>::depth(), other.coords(), Construct::<i8, U>::lo(), Construct::<i8, U>::hi()) && fits::<Construct<i8, U>>(scale_seq(inv_seq(Construct::<i8, U>::depth(), other.coords()), self as int))
    }

    open spec fn div_spec(self, other: Construct<i8, U>) -> Construct<i8, U> {
        Construct::<i8, U>::from_coords(scale_seq(inv_seq(Construct::<i8, U>::depth(), other.coords()), self as int))
    }
}

} // verus!
