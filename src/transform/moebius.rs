//! The Möbius transformation `x -> (a*x + b) / (c*x + d)` over an algebra,
//! represented by the 2×2 matrix `[[a, b], [c, d]]`.
use vstd::prelude::*;
use core::marker::PhantomData;
use crate::model::{
    add_seq, sub_seq, mul_seq, mul_fits, div_seq, div_fits, in_range, conj_seq, scale_seq, div_scalar_seq,
    norm_sqr_seq, dot_seq, dot_fits, tdiv,
};
use crate::second_order::{lmul_seq, lmul_fits, radd_seq, radd_fits};
use crate::traits::{Hypercomplex, val, Algebra, Conj, Dot, NormSqr};
use crate::construct::Construct;
use crate::transform::traits::{Transform, Identity, Chain, Deriv, DerivDir};

verus! {

/// `p * q + r` on coordinates of depth `n`.
pub open spec fn affine_seq(n: nat, p: Seq<int>, q: Seq<int>, r: Seq<int>) -> Seq<int> {
    add_seq(mul_seq(n, p, q), r)
}

/// Whether `p * q + r` can be computed within `[lo, hi]`.
pub open spec fn affine_fits(n: nat, p: Seq<int>, q: Seq<int>, r: Seq<int>, lo: int, hi: int) -> bool {
    mul_fits(n, p, q, lo, hi) && in_range(affine_seq(n, p, q, r), lo, hi)
}

/// `p * q + r * s` on coordinates of depth `n`.
pub open spec fn mul_add_seq(n: nat, p: Seq<int>, q: Seq<int>, r: Seq<int>, s: Seq<int>) -> Seq<int> {
    add_seq(mul_seq(n, p, q), mul_seq(n, r, s))
}

/// Whether `p * q + r * s` can be computed within `[lo, hi]`.
pub open spec fn mul_add_fits(
    n: nat,
    p: Seq<int>,
    q: Seq<int>,
    r: Seq<int>,
    s: Seq<int>,
    lo: int,
    hi: int,
) -> bool {
    &&& mul_fits(n, p, q, lo, hi)
    &&& mul_fits(n, r, s, lo, hi)
    &&& in_range(mul_add_seq(n, p, q, r, s), lo, hi)
}

/// `p * q - r * s` on coordinates of depth `n`.
pub open spec fn mul_sub_seq(n: nat, p: Seq<int>, q: Seq<int>, r: Seq<int>, s: Seq<int>) -> Seq<int> {
    sub_seq(mul_seq(n, p, q), mul_seq(n, r, s))
}

/// Whether `p * q - r * s` can be computed within `[lo, hi]`.
pub open spec fn mul_sub_fits(
    n: nat,
    p: Seq<int>,
    q: Seq<int>,
    r: Seq<int>,
    s: Seq<int>,
    lo: int,
    hi: int,
) -> bool {
    &&& mul_fits(n, p, q, lo, hi)
    &&& mul_fits(n, r, s, lo, hi)
    &&& in_range(mul_sub_seq(n, p, q, r, s), lo, hi)
}

/// Möbius transformation `x -> (a*x + b) / (c*x + d)` with coefficients in
/// the algebra `U` over the scalar `T`.
#[derive(Copy, PartialEq, Eq, Debug)]
pub struct Moebius<T, U> {
    a: U,
    b: U,
    c: U,
    d: U,
    ph: PhantomData<T>,
}

impl<T: Copy, U: Copy> Clone for Moebius<T, U> {
    fn clone(&self) -> (r: Self)
        ensures
            r == *self,
    {
        *self
    }
}

impl<T, U> Moebius<T, U> {
    pub closed spec fn a_spec(self) -> U {
        self.a
    }

    pub closed spec fn b_spec(self) -> U {
        self.b
    }

    pub closed spec fn c_spec(self) -> U {
        self.c
    }

    pub closed spec fn d_spec(self) -> U {
        self.d
    }

    /// The transformation with the given coefficients.
    pub closed spec fn with(a: U, b: U, c: U, d: U) -> Self {
        Moebius { a, b, c, d, ph: PhantomData }
    }

    pub fn new(a: U, b: U, c: U, d: U) -> (r: Self)
        ensures
            r == Self::with(a, b, c, d),
            r.a_spec() == a,
            r.b_spec() == b,
            r.c_spec() == c,
            r.d_spec() == d,
    {
        Moebius { a, b, c, d, ph: PhantomData }
    }

    pub fn a_ref(&self) -> (r: &U)
        ensures
            *r == self.a_spec(),
    {
        &self.a
    }

    pub fn b_ref(&self) -> (r: &U)
        ensures
            *r == self.b_spec(),
    {
        &self.b
    }

    pub fn c_ref(&self) -> (r: &U)
        ensures
            *r == self.c_spec(),
    {
        &self.c
    }

    pub fn d_ref(&self) -> (r: &U)
        ensures
            *r == self.d_spec(),
    {
        &self.d
    }

    pub fn a_mut(&mut self) -> (r: &mut U)
        ensures
            *r == old(self).a_spec(),
            *final(self) == Self::with(*final(r), old(self).b_spec(), old(self).c_spec(), old(self).d_spec()),
    {
        &mut self.a
    }

    pub fn b_mut(&mut self) -> (r: &mut U)
        ensures
            *r == old(self).b_spec(),
            *final(self) == Self::with(old(self).a_spec(), *final(r), old(self).c_spec(), old(self).d_spec()),
    {
        &mut self.b
    }

    pub fn c_mut(&mut self) -> (r: &mut U)
        ensures
            *r == old(self).c_spec(),
            *final(self) == Self::with(old(self).a_spec(), old(self).b_spec(), *final(r), old(self).d_spec()),
    {
        &mut self.c
    }

    pub fn d_mut(&mut self) -> (r: &mut U)
        ensures
            *r == old(self).d_spec(),
            *final(self) == Self::with(old(self).a_spec(), old(self).b_spec(), old(self).c_spec(), *final(r)),
    {
        &mut self.d
    }
}

impl<T, U: Copy> Moebius<T, U> {
    pub fn a(&self) -> (r: U)
        ensures
            r == self.a_spec(),
    {
        self.a
    }

    pub fn b(&self) -> (r: U)
        ensures
            r == self.b_spec(),
    {
        self.b
    }

    pub fn c(&self) -> (r: U)
        ensures
            r == self.c_spec(),
    {
        self.c
    }

    pub fn d(&self) -> (r: U)
        ensures
            r == self.d_spec(),
    {
        self.d
    }
}

impl<T, U: Copy> From<[U; 4]> for Moebius<T, U> {
    /// The transformation with coefficients `[a, b, c, d]`.
    fn from(array: [U; 4]) -> (r: Self) {
        Moebius::new(array[0], array[1], array[2], array[3])
    }
}

impl<T, U: Copy> vstd::std_specs::convert::FromSpecImpl<[U; 4]> for Moebius<T, U> {
    open spec fn obeys_from_spec() -> bool {
        true
    }

    open spec fn from_spec(array: [U; 4]) -> Self {
        Self::with(array@[0], array@[1], array@[2], array@[3])
    }
}

impl<T, U: Copy> From<Moebius<T, U>> for [U; 4] {
    /// The coefficients `[a, b, c, d]`.
    fn from(m: Moebius<T, U>) -> (r: Self) {
        [m.a, m.b, m.c, m.d]
    }
}

impl<T, U: Copy> vstd::std_specs::convert::FromSpecImpl<Moebius<T, U>> for [U; 4] {
    open spec fn obeys_from_spec() -> bool {
        true
    }

    open spec fn from_spec(m: Moebius<T, U>) -> Self {
        [m.a_spec(), m.b_spec(), m.c_spec(), m.d_spec()]
    }
}

impl<T: Algebra<T>, U: Algebra<T>> Moebius<T, U> {
    /// Whether the determinant `a*d - b*c` can be computed.
    pub open spec fn det_req(self) -> bool {
        mul_sub_fits(
            U::depth(),
            self.a_spec().coords(),
            self.d_spec().coords(),
            self.b_spec().coords(),
            self.c_spec().coords(),
            U::lo(),
            U::hi(),
        )
    }

    /// The coordinates of the determinant `a*d - b*c`.
    pub open spec fn det_coords(self) -> Seq<int> {
        mul_sub_seq(
            U::depth(),
            self.a_spec().coords(),
            self.d_spec().coords(),
            self.b_spec().coords(),
            self.c_spec().coords(),
        )
    }

    /// The determinant `a*d - b*c`.
    pub fn det(&self) -> (r: U)
        requires
            self.det_req(),
        ensures
            r.coords() == self.det_coords(),
    {
        self.a.mul(self.d).sub(self.b.mul(self.c))
    }

    /// Whether every coefficient can be divided by the determinant.
    pub open spec fn normalize_req(self) -> bool {
        let n = U::depth();
        let det = self.det_coords();
        &&& self.det_req()
        &&& div_fits(n, self.a_spec().coords(), det, U::lo(), U::hi())
        &&& div_fits(n, self.b_spec().coords(), det, U::lo(), U::hi())
        &&& div_fits(n, self.c_spec().coords(), det, U::lo(), U::hi())
        &&& div_fits(n, self.d_spec().coords(), det, U::lo(), U::hi())
    }

    /// Every coefficient divided by the determinant.
    pub fn normalize(self) -> (r: Self)
        requires
            self.normalize_req(),
        ensures
            r.a_spec().coords() == div_seq(U::depth(), self.a_spec().coords(), self.det_coords()),
            r.b_spec().coords() == div_seq(U::depth(), self.b_spec().coords(), self.det_coords()),
            r.c_spec().coords() == div_seq(U::depth(), self.c_spec().coords(), self.det_coords()),
            r.d_spec().coords() == div_seq(U::depth(), self.d_spec().coords(), self.det_coords()),
    {
        let det = self.det();
        Moebius::new(self.a.div(det), self.b.div(det), self.c.div(det), self.d.div(det))
    }
}

impl<T: Algebra<T>, U: Algebra<T>> Transform<U> for Moebius<T, U> {
    open spec fn apply_req(&self, x: U) -> bool {
        let n = U::depth();
        let (lo, hi) = (U::lo(), U::hi());
        let num = affine_seq(n, self.a_spec().coords(), x.coords(), self.b_spec().coords());
        let den = affine_seq(n, self.c_spec().coords(), x.coords(), self.d_spec().coords());
        &&& affine_fits(n, self.a_spec().coords(), x.coords(), self.b_spec().coords(), lo, hi)
        &&& affine_fits(n, self.c_spec().coords(), x.coords(), self.d_spec().coords(), lo, hi)
        &&& div_fits(n, num, den, lo, hi)
    }

    /// `(a*x + b) / (c*x + d)`.
    open spec fn apply_spec(&self, x: U) -> U {
        let n = U::depth();
        let num = affine_seq(n, self.a_spec().coords(), x.coords(), self.b_spec().coords());
        let den = affine_seq(n, self.c_spec().coords(), x.coords(), self.d_spec().coords());
        U::from_coords(div_seq(n, num, den))
    }

    fn apply(&self, x: U) -> (r: U) {
        let num = self.a.mul(x).add(self.b);
        let den = self.c.mul(x).add(self.d);
        let r = num.div(den);
        proof {
            r.lemma_coords();
        }
        r
    }
}

impl<T: Algebra<T>, U: Algebra<T>> Identity for Moebius<T, U> {
    open spec fn identity_spec() -> Self {
        Self::with(
            U::from_coords(crate::model::one_seq(U::depth())),
            U::from_coords(crate::model::zero_seq(U::depth())),
            U::from_coords(crate::model::zero_seq(U::depth())),
            U::from_coords(crate::model::one_seq(U::depth())),
        )
    }

    /// The matrix `[[1, 0], [0, 1]]`.
    fn identity() -> (r: Self) {
        let one = U::one();
        let zero = U::zero();
        proof {
            one.lemma_coords();
            zero.lemma_coords();
        }
        Moebius::new(one, zero, zero, one)
    }
}

impl<T: Algebra<T>, U: Algebra<T>> Chain<U> for Moebius<T, U> {
    open spec fn chain_req(&self, other: &Self) -> bool {
        let n = U::depth();
        let (lo, hi) = (U::lo(), U::hi());
        let (a, b, c, d) = (
            self.a_spec().coords(),
            self.b_spec().coords(),
            self.c_spec().coords(),
            self.d_spec().coords(),
        );
        let (p, q, r, s) = (
            other.a_spec().coords(),
            other.b_spec().coords(),
            other.c_spec().coords(),
            other.d_spec().coords(),
        );
        &&& mul_add_fits(n, a, p, b, r, lo, hi)
        &&& mul_add_fits(n, a, q, b, s, lo, hi)
        &&& mul_add_fits(n, c, p, d, r, lo, hi)
        &&& mul_add_fits(n, c, q, d, s, lo, hi)
    }

    /// The matrix product of `self` and `other`.
    open spec fn chain_spec(&self, other: &Self) -> Self {
        let n = U::depth();
        let (a, b, c, d) = (
            self.a_spec().coords(),
            self.b_spec().coords(),
            self.c_spec().coords(),
            self.d_spec().coords(),
        );
        let (p, q, r, s) = (
            other.a_spec().coords(),
            other.b_spec().coords(),
            other.c_spec().coords(),
            other.d_spec().coords(),
        );
        Self::with(
            U::from_coords(mul_add_seq(n, a, p, b, r)),
            U::from_coords(mul_add_seq(n, a, q, b, s)),
            U::from_coords(mul_add_seq(n, c, p, d, r)),
            U::from_coords(mul_add_seq(n, c, q, d, s)),
        )
    }

    fn chain(self, other: Self) -> (r: Self) {
        let a = self.a.mul(other.a).add(self.b.mul(other.c));
        let b = self.a.mul(other.b).add(self.b.mul(other.d));
        let c = self.c.mul(other.a).add(self.d.mul(other.c));
        let d = self.c.mul(other.b).add(self.d.mul(other.d));
        proof {
            a.lemma_coords();
            b.lemma_coords();
            c.lemma_coords();
            d.lemma_coords();
        }
        Moebius::new(a, b, c, d)
    }
}

impl<T: Algebra<T>> Deriv<Construct<T, T>> for Moebius<T, Construct<T, T>> {
    open spec fn deriv_req(&self, p: Construct<T, T>) -> bool {
        let n = Construct::<T, T>::depth();
        let (lo, hi) = (T::lo(), T::hi());
        let (a, b, c, d) = (
            self.a_spec().coords(),
            self.b_spec().coords(),
            self.c_spec().coords(),
            self.d_spec().coords(),
        );
        let u = affine_seq(n, a, p.coords(), b);
        let w = affine_seq(n, c, p.coords(), d);
        &&& affine_fits(n, a, p.coords(), b, lo, hi)
        &&& affine_fits(n, c, p.coords(), d, lo, hi)
        &&& mul_sub_fits(n, a, w, u, c, lo, hi)
        &&& mul_fits(n, w, w, lo, hi)
        &&& div_fits(n, mul_sub_seq(n, a, w, u, c), mul_seq(n, w, w), lo, hi)
    }

    /// `(a*w - u*c) / (w*w)` where `u = a*p + b` and `w = c*p + d`.
    open spec fn deriv_spec(&self, p: Construct<T, T>) -> Construct<T, T> {
        let n = Construct::<T, T>::depth();
        let (a, b, c, d) = (
            self.a_spec().coords(),
            self.b_spec().coords(),
            self.c_spec().coords(),
            self.d_spec().coords(),
        );
        let u = affine_seq(n, a, p.coords(), b);
        let w = affine_seq(n, c, p.coords(), d);
        Construct::<T, T>::from_coords(div_seq(n, mul_sub_seq(n, a, w, u, c), mul_seq(n, w, w)))
    }

    fn deriv(&self, p: Construct<T, T>) -> (r: Construct<T, T>) {
        let u = self.a.mul(p).add(self.b);
        let w = self.c.mul(p).add(self.d);
        let num = self.a.mul(w).sub(u.mul(self.c));
        let den = w.mul(w);
        let r = num.div(den);
        proof {
            r.lemma_coords();
        }
        r
    }
}

impl<T: Algebra<T>> DerivDir<Construct<T, T>> for Moebius<T, Construct<T, T>> {
    open spec fn deriv_dir_req(&self, p: Construct<T, T>, v: Construct<T, T>) -> bool {
        &&& self.deriv_req(p)
        &&& mul_fits(
            Construct::<T, T>::depth(),
            self.deriv_spec(p).coords(),
            v.coords(),
            T::lo(),
            T::hi(),
        )
    }

    /// The derivative at `p` times the direction `v`.
    open spec fn deriv_dir_spec(&self, p: Construct<T, T>, v: Construct<T, T>) -> Construct<T, T> {
        Construct::<T, T>::from_coords(
            mul_seq(Construct::<T, T>::depth(), self.deriv_spec(p).coords(), v.coords()),
        )
    }

    fn deriv_dir(&self, p: Construct<T, T>, v: Construct<T, T>) -> (r: Construct<T, T>) {
        let r = self.deriv(p).mul(v);
        proof {
            r.lemma_coords();
        }
        r
    }
}

/// `c * q + r` for `c`, `r` of depth `n` and `q` of depth `n + 1`.
pub open spec fn mixed_affine_seq(n: nat, c: Seq<int>, q: Seq<int>, r: Seq<int>) -> Seq<int> {
    radd_seq(n, lmul_seq(n, c, q), r)
}

pub open spec fn mixed_affine_fits(n: nat, c: Seq<int>, q: Seq<int>, r: Seq<int>, lo: int, hi: int) -> bool {
    lmul_fits(n, c, q, lo, hi) && radd_fits(n, lmul_seq(n, c, q), r, lo, hi)
}

/// Coefficients one level below the points: `a * x` multiplies both halves
/// of `x` by `a`, and `+ b` adds `b` to the real half.
impl<T: Algebra<T>, U: Algebra<T>> Transform<Construct<T, Construct<T, U>>> for Moebius<
    T,
    Construct<T, U>,
> {
    open spec fn apply_req(&self, x: Construct<T, Construct<T, U>>) -> bool {
        let n = Construct::<T, U>::depth();
        let (lo, hi) = (U::lo(), U::hi());
        let num = mixed_affine_seq(n, self.a_spec().coords(), x.coords(), self.b_spec().coords());
        let den = mixed_affine_seq(n, self.c_spec().coords(), x.coords(), self.d_spec().coords());
        &&& mixed_affine_fits(n, self.a_spec().coords(), x.coords(), self.b_spec().coords(), lo, hi)
        &&& mixed_affine_fits(n, self.c_spec().coords(), x.coords(), self.d_spec().coords(), lo, hi)
        &&& div_fits(n + 1, num, den, lo, hi)
    }

    /// `(a*x + b) / (c*x + d)`.
    open spec fn apply_spec(&self, x: Construct<T, Construct<T, U>>) -> Construct<T, Construct<T, U>> {
        let n = Construct::<T, U>::depth();
        let num = mixed_affine_seq(n, self.a_spec().coords(), x.coords(), self.b_spec().coords());
        let den = mixed_affine_seq(n, self.c_spec().coords(), x.coords(), self.d_spec().coords());
        Construct::<T, Construct<T, U>>::from_coords(div_seq(n + 1, num, den))
    }

    fn apply(&self, x: Construct<T, Construct<T, U>>) -> (r: Construct<T, Construct<T, U>>) {
        let num = x.lmul(self.a).add_re(self.b);
        let den = x.lmul(self.c).add_re(self.d);
        let r = <Construct<T, Construct<T, U>> as Algebra<T>>::div(num, den);
        proof {
            r.lemma_coords();
        }
        r
    }
}

/// The intermediate values of the directional derivative at the quaternion
/// `p` along `v`, for complex coefficients `a, b, c, d` (`n` is the depth of
/// the coefficients).
pub open spec fn deriv_dir_terms(
    n: nat,
    a: Seq<int>,
    b: Seq<int>,
    c: Seq<int>,
    d: Seq<int>,
    p: Seq<int>,
    v: Seq<int>,
) -> (Seq<int>, Seq<int>, int, Seq<int>, Seq<int>, int, Seq<int>) {
    let m = n + 1;
    let u = mixed_affine_seq(n, a, p, b);
    let w = mixed_affine_seq(n, c, p, d);
    let d2 = norm_sqr_seq(m, w);
    let av = lmul_seq(n, a, v);
    let cv = lmul_seq(n, c, v);
    let k = tdiv(dot_seq(m, w, cv) * 2, d2);
    let h = div_scalar_seq(sub_seq(conj_seq(cv), scale_seq(conj_seq(w), k)), d2);
    (u, w, d2, av, cv, k, h)
}

impl<T: Algebra<T> + Dot<T>> DerivDir<Construct<T, Construct<T, T>>> for Moebius<T, Construct<T, T>> {
    open spec fn deriv_dir_req(&self, p: Construct<T, Construct<T, T>>, v: Construct<T, Construct<T, T>>) -> bool {
        let n = Construct::<T, T>::depth();
        let m = n + 1;
        let (lo, hi) = (T::lo(), T::hi());
        let (a, b, c, d) = (
            self.a_spec().coords(),
            self.b_spec().coords(),
            self.c_spec().coords(),
            self.d_spec().coords(),
        );
        let (u, w, d2, av, cv, k, h) = deriv_dir_terms(n, a, b, c, d, p.coords(), v.coords());
        &&& 2 <= hi
        &&& mixed_affine_fits(n, a, p.coords(), b, lo, hi)
        &&& mixed_affine_fits(n, c, p.coords(), d, lo, hi)
        &&& norm_sqr_seq(m, w) <= hi
        &&& lmul_fits(n, a, v.coords(), lo, hi)
        &&& div_fits(m, av, w, lo, hi)
        &&& lmul_fits(n, c, v.coords(), lo, hi)
        &&& in_range(conj_seq(cv), lo, hi)
        &&& dot_fits(m, w, cv, lo, hi)
        &&& lo <= dot_seq(m, w, cv) * 2 <= hi
        &&& d2 != 0
        &&& in_range(conj_seq(w), lo, hi)
        &&& in_range(scale_seq(conj_seq(w), k), lo, hi)
        &&& in_range(sub_seq(conj_seq(cv), scale_seq(conj_seq(w), k)), lo, hi)
        &&& in_range(h, lo, hi)
        &&& mul_fits(m, u, h, lo, hi)
        &&& in_range(add_seq(div_seq(m, av, w), mul_seq(m, u, h)), lo, hi)
    }

    /// `(a*v) / w + u * ((conj(c*v) - conj(w) * (2 * dot(w, c*v) / |w|^2)) / |w|^2)`
    /// where `u = a*p + b` and `w = c*p + d`.
    open spec fn deriv_dir_spec(&self, p: Construct<T, Construct<T, T>>, v: Construct<T, Construct<T, T>>) -> Construct<T, Construct<T, T>> {
        let n = Construct::<T, T>::depth();
        let m = n + 1;
        let (u, w, d2, av, cv, k, h) = deriv_dir_terms(
            n,
            self.a_spec().coords(),
            self.b_spec().coords(),
            self.c_spec().coords(),
            self.d_spec().coords(),
            p.coords(),
            v.coords(),
        );
        Construct::<T, Construct<T, T>>::from_coords(add_seq(div_seq(m, av, w), mul_seq(m, u, h)))
    }

    fn deriv_dir(&self, p: Construct<T, Construct<T, T>>, v: Construct<T, Construct<T, T>>) -> (r: Construct<T, Construct<T, T>>) {
        proof {
            T::lemma_base();
        }
        let u = p.lmul(self.a).add_re(self.b);
        let w = p.lmul(self.c).add_re(self.d);
        let d2 = w.abs_sqr();
        let g1 = <Construct<T, Construct<T, T>> as Algebra<T>>::div(v.lmul(self.a), w);
        let cv = v.lmul(self.c);
        let g21 = cv.conj();
        let one = T::one();
        proof {
            one.lemma_coords();
            assert(crate::model::one_seq(0)[0] == 1);
            assert(add_seq(one.coords(), one.coords())[0] == 2);
        }
        let two = one.add(one);
        let dot = w.dot(cv);
        proof {
            dot.lemma_coords();
            two.lemma_coords();
            d2.lemma_coords();
            assert(mul_seq(0, dot.coords(), two.coords()) =~= seq![val(dot) * 2]);
        }
        let twice = dot.mul(two);
        proof {
            twice.lemma_coords();
            assert(div_seq(0, twice.coords(), d2.coords()) =~= seq![tdiv(val(twice), val(d2))]);
            crate::model::lemma_norm_sqr_nonneg(2, w.coords());
        }
        let k = twice.div(d2);
        let g22 = w.conj().mul_scalar(k);
        let g2 = u.mul(g21.sub(g22).div_scalar(d2));
        let r = <Construct<T, Construct<T, T>> as Algebra<T>>::add(g1, g2);
        proof {
            r.lemma_coords();
        }
        r
    }
}

} // verus!
