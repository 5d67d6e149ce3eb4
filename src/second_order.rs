//! Two levels of nesting at once: a construction whose components are
//! themselves constructions (a quaternion built from complex numbers, say).
//! Its four coordinates `w, x, y, z` are `re.re, re.im, im.re, im.im`, and a
//! value of the component type acts on it as the scalar does one level down:
//! added to the real component, multiplying both components.
use vstd::prelude::*;
use core::ops::{Add, Sub, Mul, Div};
use vstd::std_specs::ops::{AddSpecImpl, SubSpecImpl, MulSpecImpl, DivSpecImpl};
use crate::model::{
    neg_seq, add_seq, sub_seq, mul_seq, mul_fits, div_seq, div_fits, inv_seq, inv_fits, re_half, im_half,
    in_range,
};
use crate::traits::{Hypercomplex, fits, Algebra};
use crate::construct::Construct;

verus! {

impl<T, U> Construct<T, Construct<T, U>> {
    /// Create from four parts.
    pub fn new2(w: U, x: U, y: U, z: U) -> (r: Self)
        ensures
            r.re_spec().re_spec() == w,
            r.re_spec().im_spec() == x,
            r.im_spec().re_spec() == y,
            r.im_spec().im_spec() == z,
    {
        Self::new(Construct::new(w, x), Construct::new(y, z))
    }

    /// Create from four parts; the same as `new2`.
    pub fn new4(w: U, x: U, y: U, z: U) -> (r: Self)
        ensures
            r.re_spec().re_spec() == w,
            r.re_spec().im_spec() == x,
            r.im_spec().re_spec() == y,
            r.im_spec().im_spec() == z,
    {
        Self::new2(w, x, y, z)
    }

    pub fn w_ref(&self) -> (r: &U)
        ensures
            *r == self.re_spec().re_spec(),
    {
        self.re_ref().re_ref()
    }

    pub fn x_ref(&self) -> (r: &U)
        ensures
            *r == self.re_spec().im_spec(),
    {
        self.re_ref().im_ref()
    }

    pub fn y_ref(&self) -> (r: &U)
        ensures
            *r == self.im_spec().re_spec(),
    {
        self.im_ref().re_ref()
    }

    pub fn z_ref(&self) -> (r: &U)
        ensures
            *r == self.im_spec().im_spec(),
    {
        self.im_ref().im_ref()
    }

    pub fn w_mut(&mut self) -> (r: &mut U)
        ensures
            *r == old(self).re_spec().re_spec(),
            *final(self) == Self::pair(
                Construct::pair(*final(r), old(self).re_spec().im_spec()),
                old(self).im_spec(),
            ),
    {
        self.re_mut().re_mut()
    }

    pub fn x_mut(&mut self) -> (r: &mut U)
        ensures
            *r == old(self).re_spec().im_spec(),
            *final(self) == Self::pair(
                Construct::pair(old(self).re_spec().re_spec(), *final(r)),
                old(self).im_spec(),
            ),
    {
        self.re_mut().im_mut()
    }

    pub fn y_mut(&mut self) -> (r: &mut U)
        ensures
            *r == old(self).im_spec().re_spec(),
            *final(self) == Self::pair(
                old(self).re_spec(),
                Construct::pair(*final(r), old(self).im_spec().im_spec()),
            ),
    {
        self.im_mut().re_mut()
    }

    pub fn z_mut(&mut self) -> (r: &mut U)
        ensures
            *r == old(self).im_spec().im_spec(),
            *final(self) == Self::pair(
                old(self).re_spec(),
                Construct::pair(old(self).im_spec().re_spec(), *final(r)),
            ),
    {
        self.im_mut().im_mut()
    }
}

impl<T, U: Copy> Construct<T, Construct<T, U>> {
    pub fn w(&self) -> (r: U)
        ensures
            r == self.re_spec().re_spec(),
    {
        *self.w_ref()
    }

    pub fn x(&self) -> (r: U)
        ensures
            r == self.re_spec().im_spec(),
    {
        *self.x_ref()
    }

    pub fn y(&self) -> (r: U)
        ensures
            r == self.im_spec().re_spec(),
    {
        *self.y_ref()
    }

    pub fn z(&self) -> (r: U)
        ensures
            r == self.im_spec().im_spec(),
    {
        *self.z_ref()
    }
}

/// `c * q` for `q` of depth `n + 1` and `c` of depth `n`: `c` multiplies
/// both halves of `q` on the left.
pub open spec fn lmul_seq(n: nat, c: Seq<int>, q: Seq<int>) -> Seq<int> {
    mul_seq(n, c, re_half(n + 1, q)) + mul_seq(n, c, im_half(n + 1, q))
}

pub open spec fn lmul_fits(n: nat, c: Seq<int>, q: Seq<int>, lo: int, hi: int) -> bool {
    mul_fits(n, c, re_half(n + 1, q), lo, hi) && mul_fits(n, c, im_half(n + 1, q), lo, hi)
}

/// `q + c` for `q` of depth `n + 1` and `c` of depth `n`: `c` is added to
/// the real half of `q`.
pub open spec fn radd_seq(n: nat, q: Seq<int>, c: Seq<int>) -> Seq<int> {
    add_seq(re_half(n + 1, q), c) + im_half(n + 1, q)
}

pub open spec fn radd_fits(n: nat, q: Seq<int>, c: Seq<int>, lo: int, hi: int) -> bool {
    in_range(add_seq(re_half(n + 1, q), c), lo, hi)
}

impl<T: Algebra<T>, U: Algebra<T>> Construct<T, Construct<T, U>> {
    /// Both components multiplied on the left by `c`: `(c * re, c * im)`.
    pub fn lmul(self, c: Construct<T, U>) -> (r: Self)
        requires
            lmul_fits(Construct::<T, U>::depth(), c.coords(), self.coords(), Self::lo(), Self::hi()),
        ensures
            r.coords() == lmul_seq(Construct::<T, U>::depth(), c.coords(), self.coords()),
    {
        proof {
            self.lemma_coords_split();
        }
        let (re, im) = self.split();
        let p = <Construct<T, U> as Algebra<T>>::mul(c, re);
        let q = <Construct<T, U> as Algebra<T>>::mul(c, im);
        let r = Construct::new(p, q);
        proof {
            r.lemma_coords_split();
        }
        r
    }

    /// `c` added to the real component: `(re + c, im)`.
    pub fn add_re(self, c: Construct<T, U>) -> (r: Self)
        requires
            radd_fits(Construct::<T, U>::depth(), self.coords(), c.coords(), Self::lo(), Self::hi()),
        ensures
            r.coords() == radd_seq(Construct::<T, U>::depth(), self.coords(), c.coords()),
    {
        proof {
            self.lemma_coords_split();
        }
        let (re, im) = self.split();
        let s = <Construct<T, U> as Algebra<T>>::add(re, c);
        let r = Construct::new(s, im);
        proof {
            r.lemma_coords_split();
        }
        r
    }
}

/// The component value added to the real component.
impl<T: Algebra<T>, U: Algebra<T>> Add<Construct<T, U>> for Construct<T, Construct<T, U>> {
    type Output = Construct<T, Construct<T, U>>;

    fn add(self, other: Construct<T, U>) -> (r: Construct<T, Construct<T, U>>) {
        let (re, im) = self.split();
        let s = <Construct<T, U> as Algebra<T>>::add(re, other);
        proof {
            s.lemma_coords();
        }
        Construct::new(s, im)
    }
}

impl<T: Algebra<T>, U: Algebra<T>> AddSpecImpl<Construct<T, U>> for Construct<T, Construct<T, U>> {
    open spec fn obeys_add_spec() -> bool {
        true
    }

    open spec fn add_req(self, other: Construct<T, U>) -> bool {
        fits::<Construct<T, U>>(add_seq(self.re_spec().coords(), other.coords()))
    }

    open spec fn add_spec(self, other: Construct<T, U>) -> Construct<T, Construct<T, U>> {
        Construct::pair(Construct::<T, U>::from_coords(add_seq(self.re_spec().coords(), other.coords())), self.im_spec())
    }
}

/// The component value subtracted from the real component.
impl<T: Algebra<T>, U: Algebra<T>> Sub<Construct<T, U>> for Construct<T, Construct<T, U>> {
    type Output = Construct<T, Construct<T, U>>;

    fn sub(self, other: Construct<T, U>) -> (r: Construct<T, Construct<T, U>>) {
        let (re, im) = self.split();
        let s = <Construct<T, U> as Algebra<T>>::sub(re, other);
        proof {
            s.lemma_coords();
        }
        Construct::new(s, im)
    }
}

impl<T: Algebra<T>, U: Algebra<T>> SubSpecImpl<Construct<T, U>> for Construct<T, Construct<T, U>> {
    open spec fn obeys_sub_spec() -> bool {
        true
    }

    open spec fn sub_req(self, other: Construct<T, U>) -> bool {
        fits::<Construct<T, U>>(sub_seq(self.re_spec().coords(), other.coords()))
    }

    open spec fn sub_spec(self, other: Construct<T, U>) -> Construct<T, Construct<T, U>> {
        Construct::pair(Construct::<T, U>::from_coords(sub_seq(self.re_spec().coords(), other.coords())), self.im_spec())
    }
}

/// Both components multiplied on the right by the component value.
impl<T: Algebra<T>, U: Algebra<T>> Mul<Construct<T, U>> for Construct<T, Construct<T, U>> {
    type Output = Construct<T, Construct<T, U>>;

    fn mul(self, other: Construct<T, U>) -> (r: Construct<T, Construct<T, U>>) {
        let (re, im) = self.split();
        let p = <Construct<T, U> as Algebra<T>>::mul(re, other);
        let q = <Construct<T, U> as Algebra<T>>::mul(im, other);
        proof {
            p.lemma_coords();
            q.lemma_coords();
        }
        Construct::new(p, q)
    }
}

impl<T: Algebra<T>, U: Algebra<T>> MulSpecImpl<Construct<T, U>> for Construct<T, Construct<T, U>> {
    open spec fn obeys_mul_spec() -> bool {
        true
    }

    open spec fn mul_req(self, other: Construct<T, U>) -> bool {
        mul_fits(Construct::<T, U>::depth(), self.re_spec().coords(), other.coords(), Construct::<T, U>::lo(), Construct::<T, U>::hi()) && mul_fits(Construct::<T, U>::depth(), self.im_spec().coords(), other.coords(), Construct::<T, U>::lo(), Construct::<T, U>::hi())
    }

    open spec fn mul_spec(self, other: Construct<T, U>) -> Construct<T, Construct<T, U>> {
        Construct::pair(Construct::<T, U>::from_coords(mul_seq(Construct::<T, U>::depth(), self.re_spec().coords(), other.coords())), Construct::<T, U>::from_coords(mul_seq(Construct::<T, U>::depth(), self.im_spec().coords(), other.coords())))
    }
}

/// Both components divided on the right by the component value.
impl<T: Algebra<T>, U: Algebra<T>> Div<Construct<T, U>> for Construct<T, Construct<T, U>> {
    type Output = Construct<T, Construct<T, U>>;

    fn div(self, other: Construct<T, U>) -> (r: Construct<T, Construct<T, U>>) {
        let (re, im) = self.split();
        let p = <Construct<T, U> as Algebra<T>>::div(re, other);
        let q = <Construct<T, U> as Algebra<T>>::div(im, other);
        proof {
            p.lemma_coords();
            q.lemma_coords();
        }
        Construct::new(p, q)
    }
}

impl<T: Algebra<T>, U: Algebra<T>> DivSpecImpl<Construct<T, U>> for Construct<T, Construct<T, U>> {
    open spec fn obeys_div_spec() -> bool {
        true
    }

    open spec fn div_req(self, other: Construct<T, U>) -> bool {
        div_fits(Construct::<T, U>::depth(), self.re_spec().coords(), other.coords(), Construct::<T, U>::lo(), Construct::<T, U>::hi()) && div_fits(Construct::<T, U>::depth(), self.im_spec().coords(), other.coords(), Construct::<T, U>::lo(), Construct::<T, U>::hi())
    }

    open spec fn div_spec(self, other: Construct<T, U>) -> Construct<T, Construct<T, U>> {
        Construct::pair(Construct::<T, U>::from_coords(div_seq(Construct::<T, U>::depth(), self.re_spec().coords(), other.coords())), Construct::<T, U>::from_coords(div_seq(Construct::<T, U>::depth(), self.im_spec().coords(), other.coords())))
    }
}

/// The component value on the left: added to the real component.
impl<T: Algebra<T>, U: Algebra<T>> Add<Construct<T, Construct<T, U>>> for Construct<T, U> {
    type Output = Construct<T, Construct<T, U>>;

    fn add(self, other: Construct<T, Construct<T, U>>) -> (r: Construct<T, Construct<T, U>>) {
        let (re, im) = other.split();
        let s = <Construct<T, U> as Algebra<T>>::add(re, self);
        proof {
            s.lemma_coords();
        }
        Construct::new(s, im)
    }
}

impl<T: Algebra<T>, U: Algebra<T>> AddSpecImpl<Construct<T, Construct<T, U>>> for Construct<T, U> {
    open spec fn obeys_add_spec() -> bool {
        true
    }

    open spec fn add_req(self, other: Construct<T, Construct<T, U>>) -> bool {
        fits::<Construct<T, U>>(add_seq(other.re_spec().coords(), self.coords()))
    }

    open spec fn add_spec(self, other: Construct<T, Construct<T, U>>) -> Construct<T, Construct<T, U>> {
        Construct::pair(Construct::<T, U>::from_coords(add_seq(other.re_spec().coords(), self.coords())), other.im_spec())
    }
}

/// The component value on the left: `(self - re, -im)`.
impl<T: Algebra<T>, U: Algebra<T>> Sub<Construct<T, Construct<T, U>>> for Construct<T, U> {
    type Output = Construct<T, Construct<T, U>>;

    fn sub(self, other: Construct<T, Construct<T, U>>) -> (r: Construct<T, Construct<T, U>>) {
        let (re, im) = other.split();
        let p = <Construct<T, U> as Algebra<T>>::sub(self, re);
        let q = <Construct<T, U> as Algebra<T>>::neg(im);
        proof {
            p.lemma_coords();
            q.lemma_coords();
        }
        Construct::new(p, q)
    }
}

impl<T: Algebra<T>, U: Algebra<T>> SubSpecImpl<Construct<T, Construct<T, U>>> for Construct<T, U> {
    open spec fn obeys_sub_spec() -> bool {
        true
    }

    open spec fn sub_req(self, other: Construct<T, Construct<T, U>>) -> bool {
        fits::<Construct<T, U>>(sub_seq(self.coords(), other.re_spec().coords())) && fits::<Construct<T, U>>(neg_seq(other.im_spec().coords()))
    }

    open spec fn sub_spec(self, other: Construct<T, Construct<T, U>>) -> Construct<T, Construct<T, U>> {
        Construct::pair(Construct::<T, U>::from_coords(sub_seq(self.coords(), other.re_spec().coords())), Construct::<T, U>::from_coords(neg_seq(other.im_spec().coords())))
    }
}

/// Both components multiplied on the left by the component value.
impl<T: Algebra<T>, U: Algebra<T>> Mul<Construct<T, Construct<T, U>>> for Construct<T, U> {
    type Output = Construct<T, Construct<T, U>>;

    fn mul(self, other: Construct<T, Construct<T, U>>) -> (r: Construct<T, Construct<T, U>>) {
        let (re, im) = other.split();
        let p = <Construct<T, U> as Algebra<T>>::mul(self, re);
        let q = <Construct<T, U> as Algebra<T>>::mul(self, im);
        proof {
            p.lemma_coords();
            q.lemma_coords();
        }
        Construct::new(p, q)
    }
}

impl<T: Algebra<T>, U: Algebra<T>> MulSpecImpl<Construct<T, Construct<T, U>>> for Construct<T, U> {
    open spec fn obeys_mul_spec() -> bool {
        true
    }

    open spec fn mul_req(self, other: Construct<T, Construct<T, U>>) -> bool {
        mul_fits(Construct::<T, U>::depth(), self.coords(), other.re_spec().coords(), Construct::<T, U>::lo(), Construct::<T, U>::hi()) && mul_fits(Construct::<T, U>::depth(), self.coords(), other.im_spec().coords(), Construct::<T, U>::lo(), Construct::<T, U>::hi())
    }

    open spec fn mul_spec(self, other: Construct<T, Construct<T, U>>) -> Construct<T, Construct<T, U>> {
        Construct::pair(Construct::<T, U>::from_coords(mul_seq(Construct::<T, U>::depth(), self.coords(), other.re_spec().coords())), Construct::<T, U>::from_coords(mul_seq(Construct::<T, U>::depth(), self.coords(), other.im_spec().coords())))
    }
}

/// The component value on the left times the inverse of `other`.
impl<T: Algebra<T>, U: Algebra<T>> Div<Construct<T, Construct<T, U>>> for Construct<T, U> {
    type Output = Construct<T, Construct<T, U>>;

    fn div(self, other: Construct<T, Construct<T, U>>) -> (r: Construct<T, Construct<T, U>>) {
        let v = other.inv();
        proof {
            v.lemma_coords();
        }
        let (re, im) = v.split();
        let p = <Construct<T, U> as Algebra<T>>::mul(self, re);
        let q = <Construct<T, U> as Algebra<T>>::mul(self, im);
        proof {
            p.lemma_coords();
            q.lemma_coords();
        }
        Construct::new(p, q)
    }
}

impl<T: Algebra<T>, U: Algebra<T>> DivSpecImpl<Construct<T, Construct<T, U>>> for Construct<T, U> {
    open spec fn obeys_div_spec() -> bool {
        true
    }

    open spec fn div_req(self, other: Construct<T, Construct<T, U>>) -> bool {
        inv_fits(Construct::<T, Construct<T, U>>::depth(), other.coords(), Construct::<T, U>::lo(), Construct::<T, U>::hi()) && mul_fits(Construct::<T, U>::depth(), self.coords(), Construct::<T, Construct<T, U>>::from_coords(inv_seq(Construct::<T, Construct<T, U>>::depth(), other.coords())).re_spec().coords(), Construct::<T, U>::lo(), Construct::<T, U>::hi()) && mul_fits(Construct::<T, U>::depth(), self.coords(), Construct::<T, Construct<T, U>>::from_coords(inv_seq(Construct::<T, Construct<T, U>>::depth(), other.coords())).im_spec().coords(), Construct::<T, U>::lo(), Construct::<T, U>::hi())
    }

    open spec fn div_spec(self, other: Construct<T, Construct<T, U>>) -> Construct<T, Construct<T, U>> {
        Construct::pair(Construct::<T, U>::from_coords(mul_seq(Construct::<T, U>::depth(), self.coords(), Construct::<T, Construct<T, U>>::from_coords(inv_seq(Construct::<T, Construct<T, U>>::depth(), other.coords())).re_spec().coords())), Construct::<T, U>::from_coords(mul_seq(Construct::<T, U>::depth(), self.coords(), Construct::<T, Construct<T, U>>::from_coords(inv_seq(Construct::<T, Construct<T, U>>::depth(), other.coords())).im_spec().coords())))
    }
}

} // verus!
