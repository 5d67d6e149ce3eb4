//! The Cayley–Dickson construction: a pair `(re, im)` of elements of a
//! component algebra `U` over the base scalar `T`, itself an algebra over `T`.
use vstd::prelude::*;
use core::marker::PhantomData;
use crate::model::{
    pow2, wf, re_half, im_half, conj_seq, neg_seq, add_seq, sub_seq, shift_seq, scale_seq, div_scalar_seq,
    tdiv, zero_seq, norm_sqr_seq, inv_seq, inv_fits, lemma_pow2_pos, lemma_halves_of_concat,
    lemma_norm_sqr_nonneg, lemma_norm_l1_nonneg, lemma_conj_concat, lemma_add_concat,
    lemma_pointwise_concat, lemma_shift_concat, lemma_zero_one_concat, lemma_in_range_concat,
};
use crate::traits::{Hypercomplex, val, Conj, Dot, NormSqr, NormL1, Algebra};

verus! {

/// Cayley–Dickson construction, a basic building block.
///
/// `T` is the scalar type the algebra is built over; `U` is the type of the
/// two components `re` and `im`.
#[derive(Copy, PartialEq, Eq, Debug)]
pub struct Construct<T, U> {
    re: U,
    im: U,
    ph: PhantomData<T>,
}

impl<T: Copy, U: Copy> Clone for Construct<T, U> {
    fn clone(&self) -> (r: Self)
        ensures
            r == *self,
    {
        *self
    }
}

impl<T, U> Construct<T, U> {
    /// The real component.
    pub closed spec fn re_spec(self) -> U {
        self.re
    }

    /// The imaginary component.
    pub closed spec fn im_spec(self) -> U {
        self.im
    }

    /// The pair with the given components.
    pub closed spec fn pair(re: U, im: U) -> Self {
        Construct { re, im, ph: PhantomData }
    }

    /// Round trip: the parts of the pair built from `re` and `im` are `re`
    /// and `im`, so `Construct::new(re, im).split() == (re, im)`.
    pub proof fn law_split_new(re: U, im: U)
        ensures
            (Self::pair(re, im).re_spec(), Self::pair(re, im).im_spec()) == (re, im),
    {
    }

    /// Create from real and imaginary parts.
    pub fn new(re: U, im: U) -> (r: Self)
        ensures
            r == Self::pair(re, im),
            r.re_spec() == re,
            r.im_spec() == im,
    {
        Construct { re, im, ph: PhantomData }
    }

    /// Split by real and imaginary parts.
    pub fn split(self) -> (r: (U, U))
        ensures
            r == (self.re_spec(), self.im_spec()),
    {
        (self.re, self.im)
    }

    pub fn re_ref(&self) -> (r: &U)
        ensures
            *r == self.re_spec(),
    {
        &self.re
    }

    pub fn im_ref(&self) -> (r: &U)
        ensures
            *r == self.im_spec(),
    {
        &self.im
    }

    pub fn re_mut(&mut self) -> (r: &mut U)
        ensures
            *r == old(self).re_spec(),
            *final(self) == Self::pair(*final(r), old(self).im_spec()),
    {
        &mut self.re
    }

    pub fn im_mut(&mut self) -> (r: &mut U)
        ensures
            *r == old(self).im_spec(),
            *final(self) == Self::pair(old(self).re_spec(), *final(r)),
    {
        &mut self.im
    }
}

impl<T, U: Copy> Construct<T, U> {
    pub fn re(&self) -> (r: U)
        ensures
            r == self.re_spec(),
    {
        self.re
    }

    pub fn im(&self) -> (r: U)
        ensures
            r == self.im_spec(),
    {
        self.im
    }
}

impl<T: Copy, U: Hypercomplex> Hypercomplex for Construct<T, U> {
    open spec fn depth() -> nat {
        U::depth() + 1
    }

    closed spec fn coords(self) -> Seq<int> {
        self.re.coords() + self.im.coords()
    }

    open spec fn lo() -> int {
        U::lo()
    }

    open spec fn hi() -> int {
        U::hi()
    }

    closed spec fn from_coords(s: Seq<int>) -> Self {
        let h = pow2(U::depth()) as int;
        Construct { re: U::from_coords(s.take(h)), im: U::from_coords(s.skip(h)), ph: PhantomData }
    }

    proof fn lemma_coords(self) {
        self.re.lemma_coords();
        self.im.lemma_coords();
        lemma_halves_of_concat(Self::depth(), self.re.coords(), self.im.coords());
        lemma_in_range_concat(self.re.coords(), self.im.coords(), Self::lo(), Self::hi());
    }

    proof fn lemma_from_coords(s: Seq<int>) {
        let h = pow2(U::depth()) as int;
        lemma_in_range_concat(s.take(h), s.skip(h), Self::lo(), Self::hi());
        assert(s.take(h) + s.skip(h) =~= s);
        U::lemma_from_coords(s.take(h));
        U::lemma_from_coords(s.skip(h));
    }
}

impl<T: Copy, U: Hypercomplex> Construct<T, U> {
    /// The coordinates of a pair are those of its real component followed by
    /// those of its imaginary component.
    pub proof fn lemma_coords_split(self)
        ensures
            self.coords() == self.re_spec().coords() + self.im_spec().coords(),
            re_half(Self::depth(), self.coords()) == self.re_spec().coords(),
            im_half(Self::depth(), self.coords()) == self.im_spec().coords(),
            wf(U::depth(), self.re_spec().coords()),
            wf(U::depth(), self.im_spec().coords()),
    {
        self.re.lemma_coords();
        self.im.lemma_coords();
        lemma_halves_of_concat(Self::depth(), self.re.coords(), self.im.coords());
    }
}

impl<T: Algebra<T>, U: Algebra<T>> Conj for Construct<T, U> {
    fn conj(self) -> (r: Self) {
        proof {
            self.lemma_coords_split();
            lemma_pow2_pos(U::depth());
            lemma_conj_concat(self.re.coords(), self.im.coords());
            lemma_in_range_concat(conj_seq(self.re.coords()), neg_seq(self.im.coords()), Self::lo(), Self::hi());
        }
        Construct::new(self.re.conj(), self.im.neg())
    }
}

impl<T: Algebra<T>, U: Algebra<T>> NormSqr<T> for Construct<T, U> {
    fn norm_sqr(self) -> (r: T) {
        proof {
            self.lemma_coords_split();
            U::lemma_base();
            T::lemma_base();
            lemma_norm_sqr_nonneg(U::depth(), self.re.coords());
            lemma_norm_sqr_nonneg(U::depth(), self.im.coords());
        }
        let a = self.re.norm_sqr();
        let b = self.im.norm_sqr();
        proof {
            a.lemma_coords();
            b.lemma_coords();
            assert(add_seq(a.coords(), b.coords())[0] == val(a) + val(b));
        }
        a.add(b)
    }
}

impl<T: Algebra<T>, U: Algebra<T> + Dot<T>> Dot<T> for Construct<T, U> {
    fn dot(self, other: Self) -> (r: T) {
        proof {
            self.lemma_coords_split();
            other.lemma_coords_split();
            U::lemma_base();
            T::lemma_base();
        }
        let a = self.re.dot(other.re);
        let b = self.im.dot(other.im);
        proof {
            a.lemma_coords();
            b.lemma_coords();
            assert(add_seq(a.coords(), b.coords())[0] == val(a) + val(b));
        }
        a.add(b)
    }
}

impl<T: Algebra<T>, U: Algebra<T> + NormL1<T>> NormL1<T> for Construct<T, U> {
    fn norm_l1(self) -> (r: T) {
        proof {
            self.lemma_coords_split();
            U::lemma_base();
            T::lemma_base();
            lemma_norm_l1_nonneg(U::depth(), self.re.coords());
            lemma_norm_l1_nonneg(U::depth(), self.im.coords());
        }
        let a = self.re.norm_l1();
        let b = self.im.norm_l1();
        proof {
            a.lemma_coords();
            b.lemma_coords();
            assert(add_seq(a.coords(), b.coords())[0] == val(a) + val(b));
        }
        a.add(b)
    }
}

impl<T: Algebra<T>, U: Algebra<T>> Algebra<T> for Construct<T, U> {
    proof fn lemma_base() {
        U::lemma_base();
    }

    fn zero() -> (r: Self) {
        proof {
            lemma_zero_one_concat(Self::depth());
        }
        Construct::new(U::zero(), U::zero())
    }

    fn one() -> (r: Self) {
        proof {
            lemma_zero_one_concat(Self::depth());
        }
        Construct::new(U::one(), U::zero())
    }

    fn is_zero(&self) -> (r: bool) {
        proof {
            self.lemma_coords_split();
            lemma_zero_one_concat(Self::depth());
            let z = zero_seq(U::depth());
            assert((z + z).take(z.len() as int) =~= z);
            assert((z + z).skip(z.len() as int) =~= z);
            if self.coords() == zero_seq(Self::depth()) {
                assert(self.re.coords() =~= (z + z).take(z.len() as int));
                assert(self.im.coords() =~= (z + z).skip(z.len() as int));
            }
            if self.re.coords() == z && self.im.coords() == z {
                assert(self.coords() == zero_seq(Self::depth()));
            }
        }
        self.re.is_zero() && self.im.is_zero()
    }

    fn neg(self) -> (r: Self) {
        proof {
            self.lemma_coords_split();
            lemma_pointwise_concat(self.re.coords(), self.im.coords(), 0);
            lemma_in_range_concat(neg_seq(self.re.coords()), neg_seq(self.im.coords()), Self::lo(), Self::hi());
        }
        Construct::new(self.re.neg(), self.im.neg())
    }

    fn add(self, other: Self) -> (r: Self) {
        proof {
            self.lemma_coords_split();
            other.lemma_coords_split();
            lemma_add_concat(self.re.coords(), self.im.coords(), other.re.coords(), other.im.coords());
            lemma_in_range_concat(
                add_seq(self.re.coords(), other.re.coords()),
                add_seq(self.im.coords(), other.im.coords()),
                Self::lo(),
                Self::hi(),
            );
        }
        Construct::new(self.re.add(other.re), self.im.add(other.im))
    }

    fn sub(self, other: Self) -> (r: Self) {
        proof {
            self.lemma_coords_split();
            other.lemma_coords_split();
            lemma_add_concat(self.re.coords(), self.im.coords(), other.re.coords(), other.im.coords());
            lemma_in_range_concat(
                sub_seq(self.re.coords(), other.re.coords()),
                sub_seq(self.im.coords(), other.im.coords()),
                Self::lo(),
                Self::hi(),
            );
        }
        Construct::new(self.re.sub(other.re), self.im.sub(other.im))
    }

    fn add_scalar(self, t: T) -> (r: Self) {
        proof {
            self.lemma_coords_split();
            lemma_pow2_pos(U::depth());
            lemma_shift_concat(self.re.coords(), self.im.coords(), val(t));
            lemma_in_range_concat(shift_seq(self.re.coords(), val(t)), self.im.coords(), Self::lo(), Self::hi());
        }
        Construct::new(self.re.add_scalar(t), self.im)
    }

    fn sub_scalar(self, t: T) -> (r: Self) {
        proof {
            self.lemma_coords_split();
            lemma_pow2_pos(U::depth());
            lemma_shift_concat(self.re.coords(), self.im.coords(), -val(t));
            lemma_in_range_concat(shift_seq(self.re.coords(), -val(t)), self.im.coords(), Self::lo(), Self::hi());
        }
        Construct::new(self.re.sub_scalar(t), self.im)
    }

    fn mul_scalar(self, t: T) -> (r: Self) {
        proof {
            self.lemma_coords_split();
            lemma_pointwise_concat(self.re.coords(), self.im.coords(), val(t));
            lemma_in_range_concat(
                scale_seq(self.re.coords(), val(t)),
                scale_seq(self.im.coords(), val(t)),
                Self::lo(),
                Self::hi(),
            );
        }
        Construct::new(self.re.mul_scalar(t), self.im.mul_scalar(t))
    }

    fn div_scalar(self, t: T) -> (r: Self) {
        proof {
            self.lemma_coords_split();
            lemma_pointwise_concat(self.re.coords(), self.im.coords(), val(t));
            lemma_in_range_concat(
                div_scalar_seq(self.re.coords(), val(t)),
                div_scalar_seq(self.im.coords(), val(t)),
                Self::lo(),
                Self::hi(),
            );
        }
        Construct::new(self.re.div_scalar(t), self.im.div_scalar(t))
    }

    fn mul(self, other: Self) -> (r: Self) {
        proof {
            self.lemma_coords_split();
            other.lemma_coords_split();
        }
        let ac = self.re.mul(other.re);
        let dc = other.im.conj();
        let db = dc.mul(self.im);
        let re = ac.sub(db);
        let da = other.im.mul(self.re);
        let cc = other.re.conj();
        let bc = self.im.mul(cc);
        let im = da.add(bc);
        Construct::new(re, im)
    }

    fn div(self, other: Self) -> (r: Self) {
        let inv = other.inv();
        self.mul(inv)
    }
}

impl<T: Algebra<T>, U: Algebra<T>> Construct<T, U> {
    /// The inverse `conj(self) / norm_sqr(self)`, each coordinate rounded
    /// toward zero.
    pub fn inv(self) -> (r: Self)
        requires
            inv_fits(Self::depth(), self.coords(), Self::lo(), Self::hi()),
        ensures
            r.coords() == inv_seq(Self::depth(), self.coords()),
    {
        proof {
            U::lemma_base();
            T::lemma_base();
            self.lemma_coords();
        }
        let n = self.norm_sqr();
        let c = self.conj();
        proof {
            let k = norm_sqr_seq(Self::depth(), self.coords());
            lemma_norm_sqr_nonneg(Self::depth(), self.coords());
            c.lemma_coords();
            assert forall|i: int| 0 <= i < c.coords().len() implies Self::lo() <= #[trigger] div_scalar_seq(
                c.coords(),
                k,
            )[i] <= Self::hi() by {
                lemma_tdiv_bounds(c.coords()[i], k);
            }
        }
        c.div_scalar(n)
    }
}

/// An operation that these algebras do not define.
#[derive(Clone, Copy, PartialEq, Eq, Debug)]
pub enum Unsupported {
    /// The remainder of a division.
    Remainder,
    /// Parsing from a string in a given radix.
    FromStrRadix,
}

impl<T, U> Construct<T, U> {
    /// The remainder is not defined for these algebras: always the
    /// `Unsupported::Remainder` error.
    pub fn rem(self, other: Self) -> (r: Result<Self, Unsupported>)
        ensures
            r == Err::<Self, Unsupported>(Unsupported::Remainder),
    {
        Err(Unsupported::Remainder)
    }

    /// Parsing from a string is not defined for these algebras: always the
    /// `Unsupported::FromStrRadix` error.
    pub fn from_str_radix(text: &str, radix: u32) -> (r: Result<Self, Unsupported>)
        ensures
            r == Err::<Self, Unsupported>(Unsupported::FromStrRadix),
    {
        Err(Unsupported::FromStrRadix)
    }
}

/// Dividing by a positive integer moves a value toward zero.
proof fn lemma_tdiv_bounds(v: int, k: int)
    requires
        k >= 1,
    ensures
        v >= 0 ==> 0 <= tdiv(v, k) <= v,
        v < 0 ==> v <= tdiv(v, k) <= 0,
{
    if v >= 0 {
        assert(0 <= v / k <= v) by (nonlinear_arith)
            requires
                v >= 0,
                k >= 1,
        ;
    } else {
        let w = -v;
        assert(0 <= w / k <= w) by (nonlinear_arith)
            requires
                w >= 0,
                k >= 1,
        ;
    }
}

} // verus!
