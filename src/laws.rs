//! Algebraic laws of the Cayley–Dickson product, proved on the coordinate
//! model that every operation's contract is stated over.
use vstd::prelude::*;
use vstd::arithmetic::div_mod::{lemma_fundamental_div_mod, lemma_div_by_multiple};
use vstd::arithmetic::mul::{
    lemma_mul_is_distributive_add, lemma_mul_is_distributive_add_other_way,
    lemma_mul_is_distributive_sub, lemma_mul_is_distributive_sub_other_way, lemma_mul_is_associative,
    lemma_mul_is_commutative,
};
use crate::model::{
    pow2, wf, re_half, im_half, add_seq, sub_seq, neg_seq, scale_seq, conj_seq, one_seq,
    zero_seq, mul_seq, norm_sqr_seq, tdiv, inv_seq, div_seq, lemma_pow2_pos,
    lemma_halves, lemma_halves_of_concat, lemma_conj_concat, lemma_pointwise_concat,
    lemma_zero_one_concat, lemma_mul_len, lemma_norm_sqr_nonneg, lemma_add_concat,
};
use crate::transform::moebius::mul_add_seq;
use crate::second_order::radd_seq;

verus! {

/// Conjugation is an involution: `conj(conj(x)) == x`.
pub proof fn law_conj_involutive(x: Seq<int>)
    ensures
        conj_seq(conj_seq(x)) == x,
{
    assert(conj_seq(conj_seq(x)) =~= x);
}

/// The halves of a conjugate: the real half conjugated, the imaginary half
/// negated.
pub proof fn lemma_conj_halves(n: nat, x: Seq<int>)
    requires
        n > 0,
        wf(n, x),
    ensures
        re_half(n, conj_seq(x)) == conj_seq(re_half(n, x)),
        im_half(n, conj_seq(x)) == neg_seq(im_half(n, x)),
{
    let m = (n - 1) as nat;
    lemma_halves(n, x);
    lemma_pow2_pos(m);
    lemma_conj_concat(re_half(n, x), im_half(n, x));
    lemma_halves_of_concat(n, conj_seq(re_half(n, x)), neg_seq(im_half(n, x)));
}

/// The halves of a scaled element are the scaled halves.
pub proof fn lemma_scale_halves(n: nat, x: Seq<int>, k: int)
    requires
        n > 0,
        wf(n, x),
    ensures
        re_half(n, scale_seq(x, k)) == scale_seq(re_half(n, x), k),
        im_half(n, scale_seq(x, k)) == scale_seq(im_half(n, x), k),
        re_half(n, neg_seq(x)) == neg_seq(re_half(n, x)),
        im_half(n, neg_seq(x)) == neg_seq(im_half(n, x)),
{
    lemma_halves(n, x);
    lemma_pointwise_concat(re_half(n, x), im_half(n, x), k);
    lemma_halves_of_concat(n, scale_seq(re_half(n, x), k), scale_seq(im_half(n, x), k));
    lemma_halves_of_concat(n, neg_seq(re_half(n, x)), neg_seq(im_half(n, x)));
}

/// The squared norm of a negated element is unchanged.
pub proof fn lemma_norm_sqr_neg(n: nat, x: Seq<int>)
    requires
        wf(n, x),
    ensures
        norm_sqr_seq(n, neg_seq(x)) == norm_sqr_seq(n, x),
    decreases n,
{
    if n == 0 {
        let v = x[0];
        assert((-v) * (-v) == v * v) by (nonlinear_arith);
    } else {
        let m = (n - 1) as nat;
        lemma_halves(n, x);
        lemma_scale_halves(n, x, 0);
        lemma_norm_sqr_neg(m, re_half(n, x));
        lemma_norm_sqr_neg(m, im_half(n, x));
    }
}

/// Conjugation keeps the squared norm: `norm_sqr(conj(x)) == norm_sqr(x)`.
pub proof fn law_norm_sqr_conj(n: nat, x: Seq<int>)
    requires
        wf(n, x),
    ensures
        norm_sqr_seq(n, conj_seq(x)) == norm_sqr_seq(n, x),
    decreases n,
{
    if n > 0 {
        let m = (n - 1) as nat;
        lemma_halves(n, x);
        lemma_conj_halves(n, x);
        law_norm_sqr_conj(m, re_half(n, x));
        lemma_norm_sqr_neg(m, im_half(n, x));
    }
}

/// Conjugation commutes with scaling.
pub proof fn lemma_conj_scale(x: Seq<int>, k: int)
    ensures
        conj_seq(scale_seq(x, k)) == scale_seq(conj_seq(x), k),
        conj_seq(neg_seq(x)) == neg_seq(conj_seq(x)),
{
    assert forall|i: int| 0 <= i < x.len() implies #[trigger] conj_seq(scale_seq(x, k))[i] == scale_seq(
        conj_seq(x),
        k,
    )[i] by {
        let v = x[i];
        assert((-v) * k == -(v * k)) by (nonlinear_arith);
    }
    assert(conj_seq(scale_seq(x, k)) =~= scale_seq(conj_seq(x), k));
    assert(conj_seq(neg_seq(x)) =~= neg_seq(conj_seq(x)));
}

/// Scaling distributes over sums and differences.
pub proof fn lemma_scale_add_sub(p: Seq<int>, q: Seq<int>, k: int)
    requires
        p.len() == q.len(),
    ensures
        sub_seq(scale_seq(p, k), scale_seq(q, k)) == scale_seq(sub_seq(p, q), k),
        add_seq(scale_seq(p, k), scale_seq(q, k)) == scale_seq(add_seq(p, q), k),
{
    assert forall|i: int| 0 <= i < p.len() implies #[trigger] sub_seq(scale_seq(p, k), scale_seq(q, k))[i]
        == scale_seq(sub_seq(p, q), k)[i] by {
        let a = p[i];
        let b = q[i];
        assert(a * k - b * k == (a - b) * k) by (nonlinear_arith);
    }
    assert forall|i: int| 0 <= i < p.len() implies #[trigger] add_seq(scale_seq(p, k), scale_seq(q, k))[i]
        == scale_seq(add_seq(p, q), k)[i] by {
        let a = p[i];
        let b = q[i];
        assert(a * k + b * k == (a + b) * k) by (nonlinear_arith);
    }
    assert(sub_seq(scale_seq(p, k), scale_seq(q, k)) =~= scale_seq(sub_seq(p, q), k));
    assert(add_seq(scale_seq(p, k), scale_seq(q, k)) =~= scale_seq(add_seq(p, q), k));
}

/// The product is linear in each argument with respect to scalars:
/// `(k x) y == k (x y) == x (k y)`.
pub proof fn lemma_mul_scale(n: nat, x: Seq<int>, y: Seq<int>, k: int)
    requires
        wf(n, x),
        wf(n, y),
    ensures
        mul_seq(n, scale_seq(x, k), y) == scale_seq(mul_seq(n, x, y), k),
        mul_seq(n, x, scale_seq(y, k)) == scale_seq(mul_seq(n, x, y), k),
    decreases n,
{
    if n == 0 {
        let a = x[0];
        let b = y[0];
        assert((a * k) * b == (a * b) * k) by (nonlinear_arith);
        assert(a * (b * k) == (a * b) * k) by (nonlinear_arith);
        assert(mul_seq(n, scale_seq(x, k), y) =~= scale_seq(mul_seq(n, x, y), k));
        assert(mul_seq(n, x, scale_seq(y, k)) =~= scale_seq(mul_seq(n, x, y), k));
    } else {
        let m = (n - 1) as nat;
        lemma_halves(n, x);
        lemma_halves(n, y);
        let a = re_half(n, x);
        let b = im_half(n, x);
        let c = re_half(n, y);
        let d = im_half(n, y);
        lemma_scale_halves(n, x, k);
        lemma_scale_halves(n, y, k);
        lemma_conj_scale(c, k);
        lemma_conj_scale(d, k);
        lemma_mul_scale(m, a, c, k);
        lemma_mul_scale(m, conj_seq(d), b, k);
        lemma_mul_scale(m, d, a, k);
        lemma_mul_scale(m, b, conj_seq(c), k);
        lemma_mul_len(m, a, c);
        lemma_mul_len(m, conj_seq(d), b);
        lemma_mul_len(m, d, a);
        lemma_mul_len(m, b, conj_seq(c));
        lemma_scale_add_sub(mul_seq(m, a, c), mul_seq(m, conj_seq(d), b), k);
        lemma_scale_add_sub(mul_seq(m, d, a), mul_seq(m, b, conj_seq(c)), k);
        lemma_pointwise_concat(
            sub_seq(mul_seq(m, a, c), mul_seq(m, conj_seq(d), b)),
            add_seq(mul_seq(m, d, a), mul_seq(m, b, conj_seq(c))),
            k,
        );
    }
}

/// Negation is scaling by `-1`.
pub proof fn lemma_neg_is_scale(x: Seq<int>)
    ensures
        neg_seq(x) == scale_seq(x, -1),
{
    assert(neg_seq(x) =~= scale_seq(x, -1));
}

/// The product with a negated factor is the negated product.
pub proof fn lemma_mul_neg(n: nat, x: Seq<int>, y: Seq<int>)
    requires
        wf(n, x),
        wf(n, y),
    ensures
        mul_seq(n, neg_seq(x), y) == neg_seq(mul_seq(n, x, y)),
        mul_seq(n, x, neg_seq(y)) == neg_seq(mul_seq(n, x, y)),
{
    lemma_neg_is_scale(x);
    lemma_neg_is_scale(y);
    lemma_neg_is_scale(mul_seq(n, x, y));
    lemma_mul_scale(n, x, y, -1);
}

/// The norm identity: `x * conj(x) == norm_sqr(x) * one` and
/// `conj(x) * x == norm_sqr(x) * one`.
pub proof fn law_mul_conj(n: nat, x: Seq<int>)
    requires
        wf(n, x),
    ensures
        mul_seq(n, x, conj_seq(x)) == scale_seq(one_seq(n), norm_sqr_seq(n, x)),
        mul_seq(n, conj_seq(x), x) == scale_seq(one_seq(n), norm_sqr_seq(n, x)),
    decreases n,
{
    let k = norm_sqr_seq(n, x);
    if n == 0 {
        assert(conj_seq(x) =~= x);
        assert(pow2(0) == 1);
        assert(one_seq(n)[0] == 1);
        assert(1 * k == k);
        assert(mul_seq(n, x, conj_seq(x)) =~= scale_seq(one_seq(n), k));
    } else {
        let m = (n - 1) as nat;
        lemma_halves(n, x);
        lemma_conj_halves(n, x);
        let a = re_half(n, x);
        let b = im_half(n, x);
        let ka = norm_sqr_seq(m, a);
        let kb = norm_sqr_seq(m, b);
        law_mul_conj(m, a);
        law_mul_conj(m, b);
        law_conj_involutive(a);
        lemma_conj_scale(b, 0);
        lemma_mul_neg(m, conj_seq(b), b);
        lemma_mul_neg(m, b, a);
        lemma_mul_neg(m, b, conj_seq(a));
        lemma_mul_len(m, b, a);
        lemma_mul_len(m, b, conj_seq(a));
        let one = one_seq(m);
        let zero = zero_seq(m);
        lemma_zero_one_concat(n);
        // The real halves: ka * one + kb * one.
        assert forall|i: int| 0 <= i < one.len() implies #[trigger] one[i] * ka + one[i] * kb == one[i] * k by {
            if i == 0 {
                assert(one[i] == 1);
            } else {
                assert(one[i] == 0);
            }
        }
        assert forall|i: int| 0 <= i < zero.len() implies #[trigger] zero[i] * k == 0 by {
            assert(zero[i] == 0);
        }
        assert(sub_seq(scale_seq(one, ka), neg_seq(scale_seq(one, kb))) =~= scale_seq(one, k));
        // The imaginary halves cancel.
        assert(add_seq(neg_seq(mul_seq(m, b, a)), mul_seq(m, b, a)) =~= scale_seq(zero, k));
        assert(add_seq(mul_seq(m, b, conj_seq(a)), neg_seq(mul_seq(m, b, conj_seq(a)))) =~= scale_seq(
            zero,
            k,
        ));
        lemma_pointwise_concat(one, zero, k);
        lemma_halves_of_concat(n, conj_seq(a), neg_seq(b));
    }
}


/// The complex product in coordinates:
/// `(x0 + x1 i)(y0 + y1 i) = (x0 y0 - x1 y1) + (x0 y1 + x1 y0) i`.
pub proof fn lemma_mul_depth1(x: Seq<int>, y: Seq<int>)
    requires
        wf(1, x),
        wf(1, y),
    ensures
        mul_seq(1, x, y) == seq![x[0] * y[0] - x[1] * y[1], x[0] * y[1] + x[1] * y[0]],
{
    assert(pow2(1) == 2) by {
        assert(pow2(0) == 1);
    }
    let a = re_half(1, x);
    let b = im_half(1, x);
    let c = re_half(1, y);
    let d = im_half(1, y);
    assert(conj_seq(c) =~= c);
    assert(conj_seq(d) =~= d);
    let (x0, x1, y0, y1) = (x[0], x[1], y[0], y[1]);
    assert(mul_seq(0, a, c) =~= seq![x0 * y0]);
    assert(mul_seq(0, conj_seq(d), b) =~= seq![x1 * y1]) by {
        assert(y1 * x1 == x1 * y1) by (nonlinear_arith);
    }
    assert(mul_seq(0, d, a) =~= seq![x0 * y1]) by {
        assert(y1 * x0 == x0 * y1) by (nonlinear_arith);
    }
    assert(mul_seq(0, b, conj_seq(c)) =~= seq![x1 * y0]);
    assert(mul_seq(1, x, y) =~= seq![x0 * y0 - x1 * y1, x0 * y1 + x1 * y0]);
}

/// The quaternion product in coordinates `(w, x, y, z)`.
pub proof fn lemma_mul_depth2(x: Seq<int>, y: Seq<int>)
    requires
        wf(2, x),
        wf(2, y),
    ensures
        mul_seq(2, x, y) == seq![
            x[0] * y[0] - x[1] * y[1] - x[2] * y[2] - x[3] * y[3],
            x[0] * y[1] + x[1] * y[0] + x[2] * y[3] - x[3] * y[2],
            x[0] * y[2] - x[1] * y[3] + x[2] * y[0] + x[3] * y[1],
            x[0] * y[3] + x[1] * y[2] - x[2] * y[1] + x[3] * y[0],
        ],
{
    assert(pow2(1) == 2) by {
        assert(pow2(0) == 1);
    }
    assert(pow2(2) == 4);
    lemma_halves(2, x);
    lemma_halves(2, y);
    let a = re_half(2, x);
    let b = im_half(2, x);
    let c = re_half(2, y);
    let d = im_half(2, y);
    assert(a[0] == x[0] && a[1] == x[1] && b[0] == x[2] && b[1] == x[3]);
    assert(c[0] == y[0] && c[1] == y[1] && d[0] == y[2] && d[1] == y[3]);
    let cc = conj_seq(c);
    let dc = conj_seq(d);
    assert(cc[0] == y[0] && cc[1] == -y[1]);
    assert(dc[0] == y[2] && dc[1] == -y[3]);
    lemma_mul_depth1(a, c);
    lemma_mul_depth1(dc, b);
    lemma_mul_depth1(d, a);
    lemma_mul_depth1(b, cc);
    let (x0, x1, x2, x3) = (x[0], x[1], x[2], x[3]);
    let (y0, y1, y2, y3) = (y[0], y[1], y[2], y[3]);
    let ac = mul_seq(1, a, c);
    let db = mul_seq(1, dc, b);
    let da = mul_seq(1, d, a);
    let bc = mul_seq(1, b, cc);
    assert(ac[0] - db[0] == x0 * y0 - x1 * y1 - x2 * y2 - x3 * y3) by (nonlinear_arith)
        requires
            ac[0] == x0 * y0 - x1 * y1,
            db[0] == y2 * x2 - (-y3) * x3,
    ;
    assert(ac[1] - db[1] == x0 * y1 + x1 * y0 + x2 * y3 - x3 * y2) by (nonlinear_arith)
        requires
            ac[1] == x0 * y1 + x1 * y0,
            db[1] == y2 * x3 + (-y3) * x2,
    ;
    assert(da[0] + bc[0] == x0 * y2 - x1 * y3 + x2 * y0 + x3 * y1) by (nonlinear_arith)
        requires
            da[0] == y2 * x0 - y3 * x1,
            bc[0] == x2 * y0 - x3 * (-y1),
    ;
    assert(da[1] + bc[1] == x0 * y3 + x1 * y2 - x2 * y1 + x3 * y0) by (nonlinear_arith)
        requires
            da[1] == y2 * x1 + y3 * x0,
            bc[1] == x2 * (-y1) + x3 * y0,
    ;
    assert(mul_seq(2, x, y) =~= seq![
        x0 * y0 - x1 * y1 - x2 * y2 - x3 * y3,
        x0 * y1 + x1 * y0 + x2 * y3 - x3 * y2,
        x0 * y2 - x1 * y3 + x2 * y0 + x3 * y1,
        x0 * y3 + x1 * y2 - x2 * y1 + x3 * y0,
    ]);
}

/// The product is commutative up to depth 1 (the complex numbers):
/// `x * y == y * x`.
pub proof fn law_mul_commutative(n: nat, x: Seq<int>, y: Seq<int>)
    requires
        n <= 1,
        wf(n, x),
        wf(n, y),
    ensures
        mul_seq(n, x, y) == mul_seq(n, y, x),
{
    if n == 0 {
        assert(mul_seq(n, x, y) =~= mul_seq(n, y, x));
    } else {
        lemma_mul_depth1(x, y);
        lemma_mul_depth1(y, x);
    }
}


/// Associativity of the complex product, coordinate by coordinate.
proof fn lemma_assoc_depth1_coords(x0: int, x1: int, y0: int, y1: int, z0: int, z1: int)
    ensures
        ((x0) * (y0) - (x1) * (y1)) * (z0) - ((x0) * (y1) + (x1) * (y0)) * (z1) == (x0) * ((y0) * (z0) - (y1) * (z1)) - (x1) * ((y0) * (z1) + (y1) * (z0)),
        ((x0) * (y0) - (x1) * (y1)) * (z1) + ((x0) * (y1) + (x1) * (y0)) * (z0) == (x0) * ((y0) * (z1) + (y1) * (z0)) + (x1) * ((y0) * (z0) - (y1) * (z1)),
{
    broadcast use lemma_mul_is_distributive_add, lemma_mul_is_distributive_add_other_way,
        lemma_mul_is_distributive_sub, lemma_mul_is_distributive_sub_other_way,
        lemma_mul_is_associative;

    assert(((x0) * (y0) - (x1) * (y1)) * (z0) - ((x0) * (y1) + (x1) * (y0)) * (z1) == (x0) * ((y0) * (z0) - (y1) * (z1)) - (x1) * ((y0) * (z1) + (y1) * (z0)));
    assert(((x0) * (y0) - (x1) * (y1)) * (z1) + ((x0) * (y1) + (x1) * (y0)) * (z0) == (x0) * ((y0) * (z1) + (y1) * (z0)) + (x1) * ((y0) * (z0) - (y1) * (z1)));
}

/// Associativity of the quaternion product, coordinate by coordinate.
proof fn lemma_assoc_depth2_coords(
    x0: int,
    x1: int,
    x2: int,
    x3: int,
    y0: int,
    y1: int,
    y2: int,
    y3: int,
    z0: int,
    z1: int,
    z2: int,
    z3: int,
)
    ensures
        ((x0) * (y0) - (x1) * (y1) - (x2) * (y2) - (x3) * (y3)) * (z0) - ((x0) * (y1) + (x1) * (y0) + (x2) * (y3) - (x3) * (y2)) * (z1) - ((x0) * (y2) - (x1) * (y3) + (x2) * (y0) + (x3) * (y1)) * (z2) - ((x0) * (y3) + (x1) * (y2) - (x2) * (y1) + (x3) * (y0)) * (z3) == (x0) * ((y0) * (z0) - (y1) * (z1) - (y2) * (z2) - (y3) * (z3)) - (x1) * ((y0) * (z1) + (y1) * (z0) + (y2) * (z3) - (y3) * (z2)) - (x2) * ((y0) * (z2) - (y1) * (z3) + (y2) * (z0) + (y3) * (z1)) - (x3) * ((y0) * (z3) + (y1) * (z2) - (y2) * (z1) + (y3) * (z0)),
        ((x0) * (y0) - (x1) * (y1) - (x2) * (y2) - (x3) * (y3)) * (z1) + ((x0) * (y1) + (x1) * (y0) + (x2) * (y3) - (x3) * (y2)) * (z0) + ((x0) * (y2) - (x1) * (y3) + (x2) * (y0) + (x3) * (y1)) * (z3) - ((x0) * (y3) + (x1) * (y2) - (x2) * (y1) + (x3) * (y0)) * (z2) == (x0) * ((y0) * (z1) + (y1) * (z0) + (y2) * (z3) - (y3) * (z2)) + (x1) * ((y0) * (z0) - (y1) * (z1) - (y2) * (z2) - (y3) * (z3)) + (x2) * ((y0) * (z3) + (y1) * (z2) - (y2) * (z1) + (y3) * (z0)) - (x3) * ((y0) * (z2) - (y1) * (z3) + (y2) * (z0) + (y3) * (z1)),
        ((x0) * (y0) - (x1) * (y1) - (x2) * (y2) - (x3) * (y3)) * (z2) - ((x0) * (y1) + (x1) * (y0) + (x2) * (y3) - (x3) * (y2)) * (z3) + ((x0) * (y2) - (x1) * (y3) + (x2) * (y0) + (x3) * (y1)) * (z0) + ((x0) * (y3) + (x1) * (y2) - (x2) * (y1) + (x3) * (y0)) * (z1) == (x0) * ((y0) * (z2) - (y1) * (z3) + (y2) * (z0) + (y3) * (z1)) - (x1) * ((y0) * (z3) + (y1) * (z2) - (y2) * (z1) + (y3) * (z0)) + (x2) * ((y0) * (z0) - (y1) * (z1) - (y2) * (z2) - (y3) * (z3)) + (x3) * ((y0) * (z1) + (y1) * (z0) + (y2) * (z3) - (y3) * (z2)),
        ((x0) * (y0) - (x1) * (y1) - (x2) * (y2) - (x3) * (y3)) * (z3) + ((x0) * (y1) + (x1) * (y0) + (x2) * (y3) - (x3) * (y2)) * (z2) - ((x0) * (y2) - (x1) * (y3) + (x2) * (y0) + (x3) * (y1)) * (z1) + ((x0) * (y3) + (x1) * (y2) - (x2) * (y1) + (x3) * (y0)) * (z0) == (x0) * ((y0) * (z3) + (y1) * (z2) - (y2) * (z1) + (y3) * (z0)) + (x1) * ((y0) * (z2) - (y1) * (z3) + (y2) * (z0) + (y3) * (z1)) - (x2) * ((y0) * (z1) + (y1) * (z0) + (y2) * (z3) - (y3) * (z2)) + (x3) * ((y0) * (z0) - (y1) * (z1) - (y2) * (z2) - (y3) * (z3)),
{
    broadcast use lemma_mul_is_distributive_add, lemma_mul_is_distributive_add_other_way,
        lemma_mul_is_distributive_sub, lemma_mul_is_distributive_sub_other_way,
        lemma_mul_is_associative;

    assert(((x0) * (y0) - (x1) * (y1) - (x2) * (y2) - (x3) * (y3)) * (z0) - ((x0) * (y1) + (x1) * (y0) + (x2) * (y3) - (x3) * (y2)) * (z1) - ((x0) * (y2) - (x1) * (y3) + (x2) * (y0) + (x3) * (y1)) * (z2) - ((x0) * (y3) + (x1) * (y2) - (x2) * (y1) + (x3) * (y0)) * (z3) == (x0) * ((y0) * (z0) - (y1) * (z1) - (y2) * (z2) - (y3) * (z3)) - (x1) * ((y0) * (z1) + (y1) * (z0) + (y2) * (z3) - (y3) * (z2)) - (x2) * ((y0) * (z2) - (y1) * (z3) + (y2) * (z0) + (y3) * (z1)) - (x3) * ((y0) * (z3) + (y1) * (z2) - (y2) * (z1) + (y3) * (z0)));
    assert(((x0) * (y0) - (x1) * (y1) - (x2) * (y2) - (x3) * (y3)) * (z1) + ((x0) * (y1) + (x1) * (y0) + (x2) * (y3) - (x3) * (y2)) * (z0) + ((x0) * (y2) - (x1) * (y3) + (x2) * (y0) + (x3) * (y1)) * (z3) - ((x0) * (y3) + (x1) * (y2) - (x2) * (y1) + (x3) * (y0)) * (z2) == (x0) * ((y0) * (z1) + (y1) * (z0) + (y2) * (z3) - (y3) * (z2)) + (x1) * ((y0) * (z0) - (y1) * (z1) - (y2) * (z2) - (y3) * (z3)) + (x2) * ((y0) * (z3) + (y1) * (z2) - (y2) * (z1) + (y3) * (z0)) - (x3) * ((y0) * (z2) - (y1) * (z3) + (y2) * (z0) + (y3) * (z1)));
    assert(((x0) * (y0) - (x1) * (y1) - (x2) * (y2) - (x3) * (y3)) * (z2) - ((x0) * (y1) + (x1) * (y0) + (x2) * (y3) - (x3) * (y2)) * (z3) + ((x0) * (y2) - (x1) * (y3) + (x2) * (y0) + (x3) * (y1)) * (z0) + ((x0) * (y3) + (x1) * (y2) - (x2) * (y1) + (x3) * (y0)) * (z1) == (x0) * ((y0) * (z2) - (y1) * (z3) + (y2) * (z0) + (y3) * (z1)) - (x1) * ((y0) * (z3) + (y1) * (z2) - (y2) * (z1) + (y3) * (z0)) + (x2) * ((y0) * (z0) - (y1) * (z1) - (y2) * (z2) - (y3) * (z3)) + (x3) * ((y0) * (z1) + (y1) * (z0) + (y2) * (z3) - (y3) * (z2)));
    assert(((x0) * (y0) - (x1) * (y1) - (x2) * (y2) - (x3) * (y3)) * (z3) + ((x0) * (y1) + (x1) * (y0) + (x2) * (y3) - (x3) * (y2)) * (z2) - ((x0) * (y2) - (x1) * (y3) + (x2) * (y0) + (x3) * (y1)) * (z1) + ((x0) * (y3) + (x1) * (y2) - (x2) * (y1) + (x3) * (y0)) * (z0) == (x0) * ((y0) * (z3) + (y1) * (z2) - (y2) * (z1) + (y3) * (z0)) + (x1) * ((y0) * (z2) - (y1) * (z3) + (y2) * (z0) + (y3) * (z1)) - (x2) * ((y0) * (z1) + (y1) * (z0) + (y2) * (z3) - (y3) * (z2)) + (x3) * ((y0) * (z0) - (y1) * (z1) - (y2) * (z2) - (y3) * (z3)));
}

/// The product is associative up to depth 2 (the quaternions):
/// `(x * y) * z == x * (y * z)`.
pub proof fn law_mul_associative(n: nat, x: Seq<int>, y: Seq<int>, z: Seq<int>)
    requires
        n <= 2,
        wf(n, x),
        wf(n, y),
        wf(n, z),
    ensures
        mul_seq(n, mul_seq(n, x, y), z) == mul_seq(n, x, mul_seq(n, y, z)),
{
    lemma_mul_len(n, x, y);
    lemma_mul_len(n, y, z);
    if n == 0 {
        lemma_mul_is_associative(x[0], y[0], z[0]);
        assert(mul_seq(n, mul_seq(n, x, y), z) =~= mul_seq(n, x, mul_seq(n, y, z)));
    } else if n == 1 {
        let xy = mul_seq(1, x, y);
        let yz = mul_seq(1, y, z);
        lemma_mul_depth1(x, y);
        lemma_mul_depth1(y, z);
        lemma_mul_depth1(xy, z);
        lemma_mul_depth1(x, yz);
        lemma_assoc_depth1_coords(x[0], x[1], y[0], y[1], z[0], z[1]);
        assert(mul_seq(1, xy, z) =~= mul_seq(1, x, yz));
    } else {
        let xy = mul_seq(2, x, y);
        let yz = mul_seq(2, y, z);
        lemma_mul_depth2(x, y);
        lemma_mul_depth2(y, z);
        lemma_mul_depth2(xy, z);
        lemma_mul_depth2(x, yz);
        lemma_assoc_depth2_coords(
            x[0],
            x[1],
            x[2],
            x[3],
            y[0],
            y[1],
            y[2],
            y[3],
            z[0],
            z[1],
            z[2],
            z[3],
        );
        assert(mul_seq(2, xy, z) =~= mul_seq(2, x, yz));
    }
}

/// Division by a positive divisor of `v` is exact, for `v` and for `-v`.
proof fn lemma_tdiv_exact(v: int, k: int)
    requires
        k > 0,
        v % k == 0,
    ensures
        tdiv(v, k) * k == v,
        tdiv(-v, k) * k == -v,
{
    let q = v / k;
    lemma_fundamental_div_mod(v, k);
    assert(v == q * k) by {
        lemma_mul_is_commutative(k, q);
    }
    assert(-v == (-q) * k) by (nonlinear_arith)
        requires
            v == q * k,
    ;
    if q >= 0 {
        lemma_div_by_multiple(q, k);
        assert(v >= 0) by (nonlinear_arith)
            requires
                v == q * k,
                q >= 0,
                k > 0,
        ;
    } else {
        lemma_div_by_multiple(-q, k);
        assert(v < 0) by (nonlinear_arith)
            requires
                v == q * k,
                q < 0,
                k > 0,
        ;
    }
}

/// A value divided by itself is one: `x / x == one`. Above depth 0 the
/// inverse rounds each coordinate toward zero, so this holds where that
/// rounding is exact: every coordinate is a multiple of the squared norm.
pub proof fn law_div_self(n: nat, x: Seq<int>)
    requires
        wf(n, x),
        norm_sqr_seq(n, x) != 0,
        n > 0 ==> forall|i: int| 0 <= i < x.len() ==> #[trigger] x[i] % norm_sqr_seq(n, x) == 0,
    ensures
        div_seq(n, x, x) == one_seq(n),
{
    if n == 0 {
        let v = x[0];
        assert(v != 0) by (nonlinear_arith)
            requires
                v * v != 0,
        ;
        assert(tdiv(v, v) == 1) by {
            if v > 0 {
                lemma_div_by_multiple(1, v);
            } else {
                assert((-v) / v == -1) by (nonlinear_arith)
                    requires
                        v < 0,
                ;
            }
        }
        assert(pow2(0) == 1);
        assert(div_seq(n, x, x) =~= one_seq(n));
    } else {
        let k = norm_sqr_seq(n, x);
        lemma_norm_sqr_nonneg(n, x);
        let q = inv_seq(n, x);
        assert forall|i: int| 0 <= i < x.len() implies #[trigger] conj_seq(x)[i] == scale_seq(q, k)[i] by {
            lemma_tdiv_exact(x[i], k);
        }
        assert(conj_seq(x) =~= scale_seq(q, k));
        law_mul_conj(n, x);
        lemma_mul_scale(n, x, q, k);
        lemma_mul_len(n, x, q);
        let m = mul_seq(n, x, q);
        let one = one_seq(n);
        assert forall|i: int| 0 <= i < m.len() implies #[trigger] m[i] == one[i] by {
            assert(scale_seq(m, k)[i] == scale_seq(one, k)[i]);
            let a = m[i];
            let b = one[i];
            assert(a == b) by (nonlinear_arith)
                requires
                    a * k == b * k,
                    k != 0,
            ;
        }
        assert(m =~= one);
    }
}

/// Conjugation is additive.
pub proof fn lemma_conj_add(x: Seq<int>, y: Seq<int>)
    requires
        x.len() == y.len(),
    ensures
        conj_seq(add_seq(x, y)) == add_seq(conj_seq(x), conj_seq(y)),
{
    assert(conj_seq(add_seq(x, y)) =~= add_seq(conj_seq(x), conj_seq(y)));
}

/// The product distributes over addition on both sides.
pub proof fn lemma_mul_distributes(n: nat, x: Seq<int>, y: Seq<int>, z: Seq<int>)
    requires
        wf(n, x),
        wf(n, y),
        wf(n, z),
    ensures
        mul_seq(n, x, add_seq(y, z)) == add_seq(mul_seq(n, x, y), mul_seq(n, x, z)),
        mul_seq(n, add_seq(x, y), z) == add_seq(mul_seq(n, x, z), mul_seq(n, y, z)),
    decreases n,
{
    if n == 0 {
        let (a, b, c) = (x[0], y[0], z[0]);
        assert(a * (b + c) == a * b + a * c) by (nonlinear_arith);
        assert((a + b) * c == a * c + b * c) by (nonlinear_arith);
        assert(mul_seq(n, x, add_seq(y, z)) =~= add_seq(mul_seq(n, x, y), mul_seq(n, x, z)));
        assert(mul_seq(n, add_seq(x, y), z) =~= add_seq(mul_seq(n, x, z), mul_seq(n, y, z)));
    } else {
        let m = (n - 1) as nat;
        lemma_halves(n, x);
        lemma_halves(n, y);
        lemma_halves(n, z);
        let (xa, xb) = (re_half(n, x), im_half(n, x));
        let (ya, yb) = (re_half(n, y), im_half(n, y));
        let (za, zb) = (re_half(n, z), im_half(n, z));
        lemma_add_concat(ya, yb, za, zb);
        lemma_add_concat(xa, xb, ya, yb);
        lemma_halves_of_concat(n, add_seq(ya, za), add_seq(yb, zb));
        lemma_halves_of_concat(n, add_seq(xa, ya), add_seq(xb, yb));
        lemma_conj_add(ya, za);
        lemma_conj_add(yb, zb);
        lemma_conj_add(za, zb);
        // x * (y + z)
        lemma_mul_distributes(m, xa, ya, za);
        lemma_mul_distributes(m, conj_seq(yb), conj_seq(zb), xb);
        lemma_mul_distributes(m, yb, zb, xa);
        lemma_mul_distributes(m, xb, conj_seq(ya), conj_seq(za));
        // (x + y) * z
        lemma_mul_distributes(m, conj_seq(zb), xb, yb);
        lemma_mul_distributes(m, zb, xa, ya);
        lemma_mul_distributes(m, xb, yb, conj_seq(za));
        lemma_mul_len(m, xa, ya);
        lemma_mul_len(m, xa, za);
        lemma_mul_len(m, ya, za);
        lemma_mul_len(m, conj_seq(yb), xb);
        lemma_mul_len(m, conj_seq(zb), xb);
        lemma_mul_len(m, conj_seq(zb), yb);
        lemma_mul_len(m, yb, xa);
        lemma_mul_len(m, zb, xa);
        lemma_mul_len(m, zb, ya);
        lemma_mul_len(m, xb, conj_seq(ya));
        lemma_mul_len(m, xb, conj_seq(za));
        lemma_mul_len(m, yb, conj_seq(za));
        let lhs1 = mul_seq(n, x, add_seq(y, z));
        let rhs1 = add_seq(mul_seq(n, x, y), mul_seq(n, x, z));
        assert(lhs1 =~= rhs1);
        let lhs2 = mul_seq(n, add_seq(x, y), z);
        let rhs2 = add_seq(mul_seq(n, x, z), mul_seq(n, y, z));
        assert(lhs2 =~= rhs2);
    }
}

/// Möbius transformations compose by their matrix product, up to depth 2
/// (the quaternions), in homogeneous coordinates: acting with `[[a2, b2],
/// [c2, d2]]` on the pair `(p, q)` and then with `[[a, b], [c, d]]` gives
/// the same pair as acting once with the product of the two matrices, the
/// matrix of `chain`. A transformation's value at `x` is the quotient of the
/// pair it makes from `(x, 1)`.
pub proof fn law_moebius_chain(
    n: nat,
    a: Seq<int>,
    b: Seq<int>,
    c: Seq<int>,
    d: Seq<int>,
    a2: Seq<int>,
    b2: Seq<int>,
    c2: Seq<int>,
    d2: Seq<int>,
    p: Seq<int>,
    q: Seq<int>,
)
    requires
        n <= 2,
        wf(n, a),
        wf(n, b),
        wf(n, c),
        wf(n, d),
        wf(n, a2),
        wf(n, b2),
        wf(n, c2),
        wf(n, d2),
        wf(n, p),
        wf(n, q),
    ensures
        mul_add_seq(n, a, mul_add_seq(n, a2, p, b2, q), b, mul_add_seq(n, c2, p, d2, q))
            == mul_add_seq(n, mul_add_seq(n, a, a2, b, c2), p, mul_add_seq(n, a, b2, b, d2), q),
        mul_add_seq(n, c, mul_add_seq(n, a2, p, b2, q), d, mul_add_seq(n, c2, p, d2, q))
            == mul_add_seq(n, mul_add_seq(n, c, a2, d, c2), p, mul_add_seq(n, c, b2, d, d2), q),
{
    lemma_row_chain(n, a, b, a2, b2, c2, d2, p, q);
    lemma_row_chain(n, c, d, a2, b2, c2, d2, p, q);
}

/// One row of `law_moebius_chain`.
proof fn lemma_row_chain(
    n: nat,
    a: Seq<int>,
    b: Seq<int>,
    a2: Seq<int>,
    b2: Seq<int>,
    c2: Seq<int>,
    d2: Seq<int>,
    p: Seq<int>,
    q: Seq<int>,
)
    requires
        n <= 2,
        wf(n, a),
        wf(n, b),
        wf(n, a2),
        wf(n, b2),
        wf(n, c2),
        wf(n, d2),
        wf(n, p),
        wf(n, q),
    ensures
        mul_add_seq(n, a, mul_add_seq(n, a2, p, b2, q), b, mul_add_seq(n, c2, p, d2, q))
            == mul_add_seq(n, mul_add_seq(n, a, a2, b, c2), p, mul_add_seq(n, a, b2, b, d2), q),
{
    lemma_mul_len(n, a2, p);
    lemma_mul_len(n, b2, q);
    lemma_mul_len(n, c2, p);
    lemma_mul_len(n, d2, q);
    lemma_mul_len(n, a, a2);
    lemma_mul_len(n, b, c2);
    lemma_mul_len(n, a, b2);
    lemma_mul_len(n, b, d2);
    // a (a2 p + b2 q) + b (c2 p + d2 q)
    lemma_mul_distributes(n, a, mul_seq(n, a2, p), mul_seq(n, b2, q));
    lemma_mul_distributes(n, b, mul_seq(n, c2, p), mul_seq(n, d2, q));
    law_mul_associative(n, a, a2, p);
    law_mul_associative(n, a, b2, q);
    law_mul_associative(n, b, c2, p);
    law_mul_associative(n, b, d2, q);
    // (a a2 + b c2) p + (a b2 + b d2) q
    lemma_mul_distributes(n, mul_seq(n, a, a2), mul_seq(n, b, c2), p);
    lemma_mul_distributes(n, mul_seq(n, a, b2), mul_seq(n, b, d2), q);
    lemma_mul_len(n, mul_seq(n, a, a2), p);
    lemma_mul_len(n, mul_seq(n, b, c2), p);
    lemma_mul_len(n, mul_seq(n, a, b2), q);
    lemma_mul_len(n, mul_seq(n, b, d2), q);
    let lhs = mul_add_seq(n, a, mul_add_seq(n, a2, p, b2, q), b, mul_add_seq(n, c2, p, d2, q));
    let rhs = mul_add_seq(n, mul_add_seq(n, a, a2, b, c2), p, mul_add_seq(n, a, b2, b, d2), q);
    assert(lhs =~= rhs);
}

/// A component value `c` of depth `n` acting on `q` of depth `n + 1` agrees
/// with its embedding `(c, 0)`: `q + c == q + (c, 0)` and
/// `c - q == (c, 0) - q`.
pub proof fn law_mixed_add_embeds(n: nat, q: Seq<int>, c: Seq<int>)
    requires
        wf(n + 1, q),
        wf(n, c),
    ensures
        radd_seq(n, q, c) == add_seq(q, c + zero_seq(n)),
        sub_seq(c, re_half(n + 1, q)) + neg_seq(im_half(n + 1, q)) == sub_seq(c + zero_seq(n), q),
{
    lemma_halves(n + 1, q);
    lemma_add_concat(re_half(n + 1, q), im_half(n + 1, q), c, zero_seq(n));
    assert(add_seq(im_half(n + 1, q), zero_seq(n)) =~= im_half(n + 1, q));
    lemma_add_concat(c, zero_seq(n), re_half(n + 1, q), im_half(n + 1, q));
    assert(sub_seq(zero_seq(n), im_half(n + 1, q)) =~= neg_seq(im_half(n + 1, q)));
}

} // verus!
