//! The capability traits: what a type must offer to be a component of a
//! Cayley–Dickson construction. Every operation is stated over the integer
//! coordinates of `Hypercomplex::coords`, and is defined exactly on the inputs
//! for which no intermediate value leaves the range of the base scalar type.
use vstd::prelude::*;
use crate::model::{in_range, wf, conj_seq, dot_fits, dot_seq, norm_sqr_seq, neg_seq, norm_l1_seq, zero_seq, one_seq, add_seq, sub_seq, shift_seq, scale_seq, div_scalar_seq, mul_fits, mul_seq, div_fits, div_seq};

verus! {

/// A value made of `2^depth` scalar coordinates, each within `[lo, hi]`.
pub trait Hypercomplex: Sized + Copy {
    /// The number of Cayley–Dickson doublings above the base scalar.
    spec fn depth() -> nat;

    /// The coordinates, the real one first.
    spec fn coords(self) -> Seq<int>;

    /// The smallest value a coordinate can hold.
    spec fn lo() -> int;

    /// The largest value a coordinate can hold.
    spec fn hi() -> int;

    /// The value whose coordinates are `s`.
    spec fn from_coords(s: Seq<int>) -> Self;

    proof fn lemma_coords(self)
        ensures
            wf(Self::depth(), self.coords()),
            in_range(self.coords(), Self::lo(), Self::hi()),
            Self::from_coords(self.coords()) == self,
            Self::lo() == -Self::hi() - 1,
            Self::hi() > 0,
    ;

    proof fn lemma_from_coords(s: Seq<int>)
        requires
            wf(Self::depth(), s),
            in_range(s, Self::lo(), Self::hi()),
        ensures
            Self::from_coords(s).coords() == s,
    ;
}

/// The value of a scalar, its single coordinate.
pub open spec fn val<T: Hypercomplex>(t: T) -> int {
    t.coords()[0]
}

/// Whether every coordinate of `s` fits the coordinate range of `H`.
pub open spec fn fits<H: Hypercomplex>(s: Seq<int>) -> bool {
    in_range(s, H::lo(), H::hi())
}

/// Something that can be conjugated.
pub trait Conj: Hypercomplex {
    /// The conjugate: the real coordinate is kept, all others are negated.
    fn conj(self) -> (r: Self)
        requires
            fits::<Self>(conj_seq(self.coords())),
        ensures
            r.coords() == conj_seq(self.coords()),
    ;
}

/// Dot product, into the base scalar `T`.
pub trait Dot<T: Hypercomplex>: Hypercomplex {
    /// The sum of the products of matching coordinates.
    fn dot(self, other: Self) -> (r: T)
        requires
            dot_fits(Self::depth(), self.coords(), other.coords(), T::lo(), T::hi()),
        ensures
            T::depth() == 0,
            val(r) == dot_seq(Self::depth(), self.coords(), other.coords()),
    ;
}

/// Square of the L2 norm, into the base scalar `T`.
pub trait NormSqr<T: Hypercomplex>: Hypercomplex {
    /// The sum of the squares of the coordinates.
    fn norm_sqr(self) -> (r: T)
        requires
            norm_sqr_seq(Self::depth(), self.coords()) <= T::hi(),
        ensures
            T::depth() == 0,
            val(r) == norm_sqr_seq(Self::depth(), self.coords()),
    ;

    /// Alias to `norm_sqr`.
    fn abs_sqr(self) -> (r: T)
        requires
            norm_sqr_seq(Self::depth(), self.coords()) <= T::hi(),
        ensures
            T::depth() == 0,
            val(r) == norm_sqr_seq(Self::depth(), self.coords()),
    {
        self.norm_sqr()
    }
}

/// L2 (Euclidean) norm, into the base scalar `T`.
pub trait Norm<T: Hypercomplex>: Hypercomplex {
    /// The nonnegative square root of the squared norm.
    fn norm(self) -> (r: T)
        requires
            fits::<Self>(neg_seq(self.coords())),
            norm_sqr_seq(Self::depth(), self.coords()) <= T::hi(),
        ensures
            T::depth() == 0,
            val(r) >= 0,
            val(r) * val(r) == norm_sqr_seq(Self::depth(), self.coords()),
    ;

    /// Alias to `norm`.
    fn abs(self) -> (r: T)
        requires
            fits::<Self>(neg_seq(self.coords())),
            norm_sqr_seq(Self::depth(), self.coords()) <= T::hi(),
        ensures
            T::depth() == 0,
            val(r) >= 0,
            val(r) * val(r) == norm_sqr_seq(Self::depth(), self.coords()),
    {
        self.norm()
    }
}

/// L1 (Manhattan) norm, into the base scalar `T`.
pub trait NormL1<T: Hypercomplex>: Hypercomplex {
    /// The sum of the absolute values of the coordinates.
    fn norm_l1(self) -> (r: T)
        requires
            norm_l1_seq(Self::depth(), self.coords()) <= T::hi(),
        ensures
            T::depth() == 0,
            val(r) == norm_l1_seq(Self::depth(), self.coords()),
    ;
}

/// Algebra over the base scalar `T`: closed under negation, addition,
/// subtraction, multiplication and division, with the scalar acting on the
/// real coordinate for addition and on every coordinate for multiplication.
pub trait Algebra<T: Hypercomplex>: Conj + NormSqr<T> {
    /// The base scalar is a single coordinate with the same range.
    proof fn lemma_base()
        ensures
            T::depth() == 0,
            T::lo() == Self::lo(),
            T::hi() == Self::hi(),
    ;

    /// The additive identity.
    fn zero() -> (r: Self)
        ensures
            r.coords() == zero_seq(Self::depth()),
    ;

    /// The multiplicative identity.
    fn one() -> (r: Self)
        ensures
            r.coords() == one_seq(Self::depth()),
    ;

    /// Whether every coordinate is zero.
    fn is_zero(&self) -> (r: bool)
        ensures
            r == (self.coords() == zero_seq(Self::depth())),
    ;

    fn neg(self) -> (r: Self)
        requires
            fits::<Self>(neg_seq(self.coords())),
        ensures
            r.coords() == neg_seq(self.coords()),
    ;

    fn add(self, other: Self) -> (r: Self)
        requires
            fits::<Self>(add_seq(self.coords(), other.coords())),
        ensures
            r.coords() == add_seq(self.coords(), other.coords()),
    ;

    fn sub(self, other: Self) -> (r: Self)
        requires
            fits::<Self>(sub_seq(self.coords(), other.coords())),
        ensures
            r.coords() == sub_seq(self.coords(), other.coords()),
    ;

    /// Adds the scalar to the real coordinate.
    fn add_scalar(self, t: T) -> (r: Self)
        requires
            fits::<Self>(shift_seq(self.coords(), val(t))),
        ensures
            r.coords() == shift_seq(self.coords(), val(t)),
    ;

    /// Subtracts the scalar from the real coordinate.
    fn sub_scalar(self, t: T) -> (r: Self)
        requires
            fits::<Self>(shift_seq(self.coords(), -val(t))),
        ensures
            r.coords() == shift_seq(self.coords(), -val(t)),
    ;

    /// Multiplies every coordinate by the scalar.
    fn mul_scalar(self, t: T) -> (r: Self)
        requires
            fits::<Self>(scale_seq(self.coords(), val(t))),
        ensures
            r.coords() == scale_seq(self.coords(), val(t)),
    ;

    /// Divides every coordinate by the scalar, rounding toward zero.
    fn div_scalar(self, t: T) -> (r: Self)
        requires
            val(t) != 0,
            fits::<Self>(div_scalar_seq(self.coords(), val(t))),
        ensures
            r.coords() == div_scalar_seq(self.coords(), val(t)),
    ;

    /// The Cayley–Dickson product.
    fn mul(self, other: Self) -> (r: Self)
        requires
            mul_fits(Self::depth(), self.coords(), other.coords(), Self::lo(), Self::hi()),
        ensures
            r.coords() == mul_seq(Self::depth(), self.coords(), other.coords()),
    ;

    /// The quotient: scalar division at depth 0, `self * other.inv()` above.
    fn div(self, other: Self) -> (r: Self)
        requires
            div_fits(Self::depth(), self.coords(), other.coords(), Self::lo(), Self::hi()),
        ensures
            r.coords() == div_seq(Self::depth(), self.coords(), other.coords()),
    ;
}

} // verus!
