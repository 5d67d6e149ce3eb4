//! The primitive signed integers `i8`, `i16`, `i32` and `i64` as algebras of depth 0: conjugation is the
//! identity and the squared norm is the square.
use vstd::prelude::*;
use crate::model::{conj_seq, neg_seq, zero_seq, one_seq, add_seq, sub_seq, shift_seq, scale_seq, tdiv, div_scalar_seq, mul_seq};
use crate::traits::{Hypercomplex, val, Conj, Dot, NormSqr, Norm, NormL1, Algebra};

verus! {

impl Hypercomplex for i32 {
    open spec fn depth() -> nat {
        0
    }

    open spec fn coords(self) -> Seq<int> {
        seq![self as int]
    }

    open spec fn lo() -> int {
        i32::MIN as int
    }

    open spec fn hi() -> int {
        i32::MAX as int
    }

    open spec fn from_coords(s: Seq<int>) -> Self {
        s[0] as i32
    }

    proof fn lemma_coords(self) {
    }

    proof fn lemma_from_coords(s: Seq<int>) {
        assert(Self::from_coords(s).coords() =~= s);
    }
}

impl Conj for i32 {
    fn conj(self) -> (r: Self) {
        proof {
            assert(conj_seq(self.coords()) =~= self.coords());
        }
        self
    }
}

impl Dot<i32> for i32 {
    fn dot(self, other: Self) -> (r: i32) {
        self * other
    }
}

impl NormSqr<i32> for i32 {
    fn norm_sqr(self) -> (r: i32) {
        proof {
            let v = self as int;
            assert(v * v >= 0) by (nonlinear_arith);
        }
        self * self
    }
}

impl Norm<i32> for i32 {
    fn norm(self) -> (r: i32) {
        proof {
            assert(neg_seq(self.coords())[0] == -self);
            let v = self as int;
            assert((-v) * (-v) == v * v) by (nonlinear_arith);
        }
        if self < 0 {
            -self
        } else {
            self
        }
    }
}

impl NormL1<i32> for i32 {
    fn norm_l1(self) -> (r: i32) {
        if self < 0 {
            -self
        } else {
            self
        }
    }
}

impl Algebra<i32> for i32 {
    proof fn lemma_base() {
    }

    fn zero() -> (r: Self) {
        proof {
            assert(zero_seq(0) =~= seq![0int]);
        }
        0
    }

    fn one() -> (r: Self) {
        proof {
            assert(one_seq(0) =~= seq![1int]);
        }
        1
    }

    fn is_zero(&self) -> (r: bool) {
        proof {
            assert(zero_seq(0) =~= seq![0int]);
            if self.coords() == zero_seq(0) {
                assert(self.coords()[0] == 0);
            }
        }
        *self == 0
    }

    fn neg(self) -> (r: Self) {
        proof {
            assert(neg_seq(self.coords())[0] == -self);
            assert(neg_seq(self.coords()) =~= seq![-self]);
        }
        -self
    }

    fn add(self, other: Self) -> (r: Self) {
        proof {
            assert(add_seq(self.coords(), other.coords())[0] == self + other);
            assert(add_seq(self.coords(), other.coords()) =~= seq![self + other]);
        }
        self + other
    }

    fn sub(self, other: Self) -> (r: Self) {
        proof {
            assert(sub_seq(self.coords(), other.coords())[0] == self - other);
            assert(sub_seq(self.coords(), other.coords()) =~= seq![self - other]);
        }
        self - other
    }

    fn add_scalar(self, t: i32) -> (r: Self) {
        proof {
            assert(shift_seq(self.coords(), val(t))[0] == self + t);
            assert(shift_seq(self.coords(), val(t)) =~= seq![self + t]);
        }
        self + t
    }

    fn sub_scalar(self, t: i32) -> (r: Self) {
        proof {
            assert(shift_seq(self.coords(), -val(t))[0] == self - t);
            assert(shift_seq(self.coords(), -val(t)) =~= seq![self - t]);
        }
        self - t
    }

    fn mul_scalar(self, t: i32) -> (r: Self) {
        proof {
            assert(scale_seq(self.coords(), val(t))[0] == self * t);
            assert(scale_seq(self.coords(), val(t)) =~= seq![self * t]);
        }
        self * t
    }

    fn div_scalar(self, t: i32) -> (r: Self) {
        proof {
            assert(div_scalar_seq(self.coords(), val(t))[0] == tdiv(self as int, t as int));
            assert(div_scalar_seq(self.coords(), val(t)) =~= seq![tdiv(self as int, t as int)]);
        }
        self / t
    }

    fn mul(self, other: Self) -> (r: Self) {
        proof {
            assert(mul_seq(0, self.coords(), other.coords()) =~= seq![self * other]);
        }
        self * other
    }

    fn div(self, other: Self) -> (r: Self) {
        self / other
    }
}

impl Hypercomplex for i64 {
    open spec fn depth() -> nat {
        0
    }

    open spec fn coords(self) -> Seq<int> {
        seq![self as int]
    }

    open spec fn lo() -> int {
        i64::MIN as int
    }

    open spec fn hi() -> int {
        i64::MAX as int
    }

    open spec fn from_coords(s: Seq<int>) -> Self {
        s[0] as i64
    }

    proof fn lemma_coords(self) {
    }

    proof fn lemma_from_coords(s: Seq<int>) {
        assert(Self::from_coords(s).coords() =~= s);
    }
}

impl Conj for i64 {
    fn conj(self) -> (r: Self) {
        proof {
            assert(conj_seq(self.coords()) =~= self.coords());
        }
        self
    }
}

impl Dot<i64> for i64 {
    fn dot(self, other: Self) -> (r: i64) {
        self * other
    }
}

impl NormSqr<i64> for i64 {
    fn norm_sqr(self) -> (r: i64) {
        proof {
            let v = self as int;
            assert(v * v >= 0) by (nonlinear_arith);
        }
        self * self
    }
}

impl Norm<i64> for i64 {
    fn norm(self) -> (r: i64) {
        proof {
            assert(neg_seq(self.coords())[0] == -self);
            let v = self as int;
            assert((-v) * (-v) == v * v) by (nonlinear_arith);
        }
        if self < 0 {
            -self
        } else {
            self
        }
    }
}

impl NormL1<i64> for i64 {
    fn norm_l1(self) -> (r: i64) {
        if self < 0 {
            -self
        } else {
            self
        }
    }
}

impl Algebra<i64> for i64 {
    proof fn lemma_base() {
    }

    fn zero() -> (r: Self) {
        proof {
            assert(zero_seq(0) =~= seq![0int]);
        }
        0
    }

    fn one() -> (r: Self) {
        proof {
            assert(one_seq(0) =~= seq![1int]);
        }
        1
    }

    fn is_zero(&self) -> (r: bool) {
        proof {
            assert(zero_seq(0) =~= seq![0int]);
            if self.coords() == zero_seq(0) {
                assert(self.coords()[0] == 0);
            }
        }
        *self == 0
    }

    fn neg(self) -> (r: Self) {
        proof {
            assert(neg_seq(self.coords())[0] == -self);
            assert(neg_seq(self.coords()) =~= seq![-self]);
        }
        -self
    }

    fn add(self, other: Self) -> (r: Self) {
        proof {
            assert(add_seq(self.coords(), other.coords())[0] == self + other);
            assert(add_seq(self.coords(), other.coords()) =~= seq![self + other]);
        }
        self + other
    }

    fn sub(self, other: Self) -> (r: Self) {
        proof {
            assert(sub_seq(self.coords(), other.coords())[0] == self - other);
            assert(sub_seq(self.coords(), other.coords()) =~= seq![self - other]);
        }
        self - other
    }

    fn add_scalar(self, t: i64) -> (r: Self) {
        proof {
            assert(shift_seq(self.coords(), val(t))[0] == self + t);
            assert(shift_seq(self.coords(), val(t)) =~= seq![self + t]);
        }
        self + t
    }

    fn sub_scalar(self, t: i64) -> (r: Self) {
        proof {
            assert(shift_seq(self.coords(), -val(t))[0] == self - t);
            assert(shift_seq(self.coords(), -val(t)) =~= seq![self - t]);
        }
        self - t
    }

    fn mul_scalar(self, t: i64) -> (r: Self) {
        proof {
            assert(scale_seq(self.coords(), val(t))[0] == self * t);
            assert(scale_seq(self.coords(), val(t)) =~= seq![self * t]);
        }
        self * t
    }

    fn div_scalar(self, t: i64) -> (r: Self) {
        proof {
            assert(div_scalar_seq(self.coords(), val(t))[0] == tdiv(self as int, t as int));
            assert(div_scalar_seq(self.coords(), val(t)) =~= seq![tdiv(self as int, t as int)]);
        }
        self / t
    }

    fn mul(self, other: Self) -> (r: Self) {
        proof {
            assert(mul_seq(0, self.coords(), other.coords()) =~= seq![self * other]);
        }
        self * other
    }

    fn div(self, other: Self) -> (r: Self) {
        self / other
    }
}

impl Hypercomplex for i16 {
    open spec fn depth() -> nat {
        0
    }

    open spec fn coords(self) -> Seq<int> {
        seq![self as int]
    }

    open spec fn lo() -> int {
        i16::MIN as int
    }

    open spec fn hi() -> int {
        i16::MAX as int
    }

    open spec fn from_coords(s: Seq<int>) -> Self {
        s[0] as i16
    }

    proof fn lemma_coords(self) {
    }

    proof fn lemma_from_coords(s: Seq<int>) {
        assert(Self::from_coords(s).coords() =~= s);
    }
}

impl Conj for i16 {
    fn conj(self) -> (r: Self) {
        proof {
            assert(conj_seq(self.coords()) =~= self.coords());
        }
        self
    }
}

impl Dot<i16> for i16 {
    fn dot(self, other: Self) -> (r: i16) {
        self * other
    }
}

impl NormSqr<i16> for i16 {
    fn norm_sqr(self) -> (r: i16) {
        proof {
            let v = self as int;
            assert(v * v >= 0) by (nonlinear_arith);
        }
        self * self
    }
}

impl Norm<i16> for i16 {
    fn norm(self) -> (r: i16) {
        proof {
            assert(neg_seq(self.coords())[0] == -self);
            let v = self as int;
            assert((-v) * (-v) == v * v) by (nonlinear_arith);
        }
        if self < 0 {
            -self
        } else {
            self
        }
    }
}

impl NormL1<i16> for i16 {
    fn norm_l1(self) -> (r: i16) {
        if self < 0 {
            -self
        } else {
            self
        }
    }
}

impl Algebra<i16> for i16 {
    proof fn lemma_base() {
    }

    fn zero() -> (r: Self) {
        proof {
            assert(zero_seq(0) =~= seq![0int]);
        }
        0
    }

    fn one() -> (r: Self) {
        proof {
            assert(one_seq(0) =~= seq![1int]);
        }
        1
    }

    fn is_zero(&self) -> (r: bool) {
        proof {
            assert(zero_seq(0) =~= seq![0int]);
            if self.coords() == zero_seq(0) {
                assert(self.coords()[0] == 0);
            }
        }
        *self == 0
    }

    fn neg(self) -> (r: Self) {
        proof {
            assert(neg_seq(self.coords())[0] == -self);
            assert(neg_seq(self.coords()) =~= seq![-self]);
        }
        -self
    }

    fn add(self, other: Self) -> (r: Self) {
        proof {
            assert(add_seq(self.coords(), other.coords())[0] == self + other);
            assert(add_seq(self.coords(), other.coords()) =~= seq![self + other]);
        }
        self + other
    }

    fn sub(self, other: Self) -> (r: Self) {
        proof {
            assert(sub_seq(self.coords(), other.coords())[0] == self - other);
            assert(sub_seq(self.coords(), other.coords()) =~= seq![self - other]);
        }
        self - other
    }

    fn add_scalar(self, t: i16) -> (r: Self) {
        proof {
            assert(shift_seq(self.coords(), val(t))[0] == self + t);
            assert(shift_seq(self.coords(), val(t)) =~= seq![self + t]);
        }
        self + t
    }

    fn sub_scalar(self, t: i16) -> (r: Self) {
        proof {
            assert(shift_seq(self.coords(), -val(t))[0] == self - t);
            assert(shift_seq(self.coords(), -val(t)) =~= seq![self - t]);
        }
        self - t
    }

    fn mul_scalar(self, t: i16) -> (r: Self) {
        proof {
            assert(scale_seq(self.coords(), val(t))[0] == self * t);
            assert(scale_seq(self.coords(), val(t)) =~= seq![self * t]);
        }
        self * t
    }

    fn div_scalar(self, t: i16) -> (r: Self) {
        proof {
            assert(div_scalar_seq(self.coords(), val(t))[0] == tdiv(self as int, t as int));
            assert(div_scalar_seq(self.coords(), val(t)) =~= seq![tdiv(self as int, t as int)]);
        }
        self / t
    }

    fn mul(self, other: Self) -> (r: Self) {
        proof {
            assert(mul_seq(0, self.coords(), other.coords()) =~= seq![self * other]);
        }
        self * other
    }

    fn div(self, other: Self) -> (r: Self) {
        self / other
    }
}

impl Hypercomplex for i8 {
    open spec fn depth() -> nat {
        0
    }

    open spec fn coords(self) -> Seq<int> {
        seq![self as int]
    }

    open spec fn lo() -> int {
        i8::MIN as int
    }

    open spec fn hi() -> int {
        i8::MAX as int
    }

    open spec fn from_coords(s: Seq<int>) -> Self {
        s[0] as i8
    }

    proof fn lemma_coords(self) {
    }

    proof fn lemma_from_coords(s: Seq<int>) {
        assert(Self::from_coords(s).coords() =~= s);
    }
}

impl Conj for i8 {
    fn conj(self) -> (r: Self) {
        proof {
            assert(conj_seq(self.coords()) =~= self.coords());
        }
        self
    }
}

impl Dot<i8> for i8 {
    fn dot(self, other: Self) -> (r: i8) {
        self * other
    }
}

impl NormSqr<i8> for i8 {
    fn norm_sqr(self) -> (r: i8) {
        proof {
            let v = self as int;
            assert(v * v >= 0) by (nonlinear_arith);
        }
        self * self
    }
}

impl Norm<i8> for i8 {
    fn norm(self) -> (r: i8) {
        proof {
            assert(neg_seq(self.coords())[0] == -self);
            let v = self as int;
            assert((-v) * (-v) == v * v) by (nonlinear_arith);
        }
        if self < 0 {
            -self
        } else {
            self
        }
    }
}

impl NormL1<i8> for i8 {
    fn norm_l1(self) -> (r: i8) {
        if self < 0 {
            -self
        } else {
            self
        }
    }
}

impl Algebra<i8> for i8 {
    proof fn lemma_base() {
    }

    fn zero() -> (r: Self) {
        proof {
            assert(zero_seq(0) =~= seq![0int]);
        }
        0
    }

    fn one() -> (r: Self) {
        proof {
            assert(one_seq(0) =~= seq![1int]);
        }
        1
    }

    fn is_zero(&self) -> (r: bool) {
        proof {
            assert(zero_seq(0) =~= seq![0int]);
            if self.coords() == zero_seq(0) {
                assert(self.coords()[0] == 0);
            }
        }
        *self == 0
    }

    fn neg(self) -> (r: Self) {
        proof {
            assert(neg_seq(self.coords())[0] == -self);
            assert(neg_seq(self.coords()) =~= seq![-self]);
        }
        -self
    }

    fn add(self, other: Self) -> (r: Self) {
        proof {
            assert(add_seq(self.coords(), other.coords())[0] == self + other);
            assert(add_seq(self.coords(), other.coords()) =~= seq![self + other]);
        }
        self + other
    }

    fn sub(self, other: Self) -> (r: Self) {
        proof {
            assert(sub_seq(self.coords(), other.coords())[0] == self - other);
            assert(sub_seq(self.coords(), other.coords()) =~= seq![self - other]);
        }
        self - other
    }

    fn add_scalar(self, t: i8) -> (r: Self) {
        proof {
            assert(shift_seq(self.coords(), val(t))[0] == self + t);
            assert(shift_seq(self.coords(), val(t)) =~= seq![self + t]);
        }
        self + t
    }

    fn sub_scalar(self, t: i8) -> (r: Self) {
        proof {
            assert(shift_seq(self.coords(), -val(t))[0] == self - t);
            assert(shift_seq(self.coords(), -val(t)) =~= seq![self - t]);
        }
        self - t
    }

    fn mul_scalar(self, t: i8) -> (r: Self) {
        proof {
            assert(scale_seq(self.coords(), val(t))[0] == self * t);
            assert(scale_seq(self.coords(), val(t)) =~= seq![self * t]);
        }
        self * t
    }

    fn div_scalar(self, t: i8) -> (r: Self) {
        proof {
            assert(div_scalar_seq(self.coords(), val(t))[0] == tdiv(self as int, t as int));
            assert(div_scalar_seq(self.coords(), val(t)) =~= seq![tdiv(self as int, t as int)]);
        }
        self / t
    }

    fn mul(self, other: Self) -> (r: Self) {
        proof {
            assert(mul_seq(0, self.coords(), other.coords()) =~= seq![self * other]);
        }
        self * other
    }

    fn div(self, other: Self) -> (r: Self) {
        self / other
    }
}

} // verus!
