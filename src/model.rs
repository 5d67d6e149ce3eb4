//! The mathematical model of every algebra in this crate: an element of the
//! algebra of depth `n` is a sequence of `2^n` integer coordinates, the first
//! one being the real part. The functions below define the Cayley–Dickson
//! operations on that model; the executable types are proved against them.
use vstd::prelude::*;

verus! {

/// `2^n`, the number of scalar coordinates of an algebra of depth `n`.
pub open spec fn pow2(n: nat) -> nat
    decreases n,
{
    if n == 0 {
        1
    } else {
        2 * pow2((n - 1) as nat)
    }
}

/// A well-formed element of the algebra of depth `n`.
pub open spec fn wf(n: nat, x: Seq<int>) -> bool {
    x.len() == pow2(n)
}

/// Every coordinate of `s` lies in `[lo, hi]`.
pub open spec fn in_range(s: Seq<int>, lo: int, hi: int) -> bool {
    forall|i: int| 0 <= i < s.len() ==> lo <= #[trigger] s[i] <= hi
}

/// The real half of an element of depth `n > 0`.
pub open spec fn re_half(n: nat, x: Seq<int>) -> Seq<int> {
    x.take(pow2((n - 1) as nat) as int)
}

/// The imaginary half of an element of depth `n > 0`.
pub open spec fn im_half(n: nat, x: Seq<int>) -> Seq<int> {
    x.skip(pow2((n - 1) as nat) as int)
}

pub open spec fn add_seq(x: Seq<int>, y: Seq<int>) -> Seq<int> {
    Seq::new(x.len(), |i: int| x[i] + y[i])
}

pub open spec fn sub_seq(x: Seq<int>, y: Seq<int>) -> Seq<int> {
    Seq::new(x.len(), |i: int| x[i] - y[i])
}

pub open spec fn neg_seq(x: Seq<int>) -> Seq<int> {
    Seq::new(x.len(), |i: int| -x[i])
}

/// Every coordinate multiplied by the scalar `k`.
pub open spec fn scale_seq(x: Seq<int>, k: int) -> Seq<int> {
    Seq::new(x.len(), |i: int| x[i] * k)
}

/// Integer division rounding toward zero, as Rust's `/` on signed integers.
pub open spec fn tdiv(a: int, b: int) -> int {
    if a >= 0 {
        a / b
    } else {
        -((-a) / b)
    }
}

/// Every coordinate divided by the scalar `k`, rounding toward zero.
pub open spec fn div_scalar_seq(x: Seq<int>, k: int) -> Seq<int> {
    Seq::new(x.len(), |i: int| tdiv(x[i], k))
}

/// The scalar `k` added to the real coordinate only.
pub open spec fn shift_seq(x: Seq<int>, k: int) -> Seq<int> {
    x.update(0, x[0] + k)
}

/// The conjugate: the real coordinate is kept, every other one negated.
pub open spec fn conj_seq(x: Seq<int>) -> Seq<int> {
    Seq::new(x.len(), |i: int| if i == 0 { x[i] } else { -x[i] })
}

pub open spec fn zero_seq(n: nat) -> Seq<int> {
    Seq::new(pow2(n), |i: int| 0)
}

pub open spec fn one_seq(n: nat) -> Seq<int> {
    Seq::new(pow2(n), |i: int| if i == 0 { 1 } else { 0 })
}

/// The Cayley–Dickson product at depth `n`:
/// `(a, b) * (c, d) = (a*c - conj(d)*b, d*a + b*conj(c))`.
pub open spec fn mul_seq(n: nat, x: Seq<int>, y: Seq<int>) -> Seq<int>
    decreases n,
{
    if n == 0 {
        seq![x[0] * y[0]]
    } else {
        let m = (n - 1) as nat;
        let a = re_half(n, x);
        let b = im_half(n, x);
        let c = re_half(n, y);
        let d = im_half(n, y);
        sub_seq(mul_seq(m, a, c), mul_seq(m, conj_seq(d), b)) + add_seq(
            mul_seq(m, d, a),
            mul_seq(m, b, conj_seq(c)),
        )
    }
}

/// Whether every intermediate value of the product at depth `n`, computed
/// as the recursion of `mul_seq` does, lies in `[lo, hi]`.
pub open spec fn mul_fits(n: nat, x: Seq<int>, y: Seq<int>, lo: int, hi: int) -> bool
    decreases n,
{
    if n == 0 {
        lo <= x[0] * y[0] <= hi
    } else {
        let m = (n - 1) as nat;
        let a = re_half(n, x);
        let b = im_half(n, x);
        let c = re_half(n, y);
        let d = im_half(n, y);
        &&& mul_fits(m, a, c, lo, hi)
        &&& in_range(conj_seq(d), lo, hi)
        &&& mul_fits(m, conj_seq(d), b, lo, hi)
        &&& in_range(sub_seq(mul_seq(m, a, c), mul_seq(m, conj_seq(d), b)), lo, hi)
        &&& mul_fits(m, d, a, lo, hi)
        &&& in_range(conj_seq(c), lo, hi)
        &&& mul_fits(m, b, conj_seq(c), lo, hi)
        &&& in_range(add_seq(mul_seq(m, d, a), mul_seq(m, b, conj_seq(c))), lo, hi)
    }
}

/// The squared Euclidean norm: the sum of the squares of the coordinates.
pub open spec fn norm_sqr_seq(n: nat, x: Seq<int>) -> int
    decreases n,
{
    if n == 0 {
        x[0] * x[0]
    } else {
        norm_sqr_seq((n - 1) as nat, re_half(n, x)) + norm_sqr_seq((n - 1) as nat, im_half(n, x))
    }
}

/// The dot product: the sum of the products of matching coordinates.
pub open spec fn dot_seq(n: nat, x: Seq<int>, y: Seq<int>) -> int
    decreases n,
{
    if n == 0 {
        x[0] * y[0]
    } else {
        dot_seq((n - 1) as nat, re_half(n, x), re_half(n, y)) + dot_seq(
            (n - 1) as nat,
            im_half(n, x),
            im_half(n, y),
        )
    }
}

/// Whether every partial sum of `dot_seq`, in the order of its recursion,
/// lies in `[lo, hi]`.
pub open spec fn dot_fits(n: nat, x: Seq<int>, y: Seq<int>, lo: int, hi: int) -> bool
    decreases n,
{
    if n == 0 {
        lo <= x[0] * y[0] <= hi
    } else {
        let m = (n - 1) as nat;
        &&& dot_fits(m, re_half(n, x), re_half(n, y), lo, hi)
        &&& dot_fits(m, im_half(n, x), im_half(n, y), lo, hi)
        &&& lo <= dot_seq(n, x, y) <= hi
    }
}

pub open spec fn abs(v: int) -> int {
    if v < 0 {
        -v
    } else {
        v
    }
}

/// The L1 (Manhattan) norm: the sum of the absolute values of the coordinates.
pub open spec fn norm_l1_seq(n: nat, x: Seq<int>) -> int
    decreases n,
{
    if n == 0 {
        abs(x[0])
    } else {
        norm_l1_seq((n - 1) as nat, re_half(n, x)) + norm_l1_seq((n - 1) as nat, im_half(n, x))
    }
}

/// The inverse `conj(x) / norm_sqr(x)`, each coordinate rounded toward zero.
pub open spec fn inv_seq(n: nat, x: Seq<int>) -> Seq<int> {
    div_scalar_seq(conj_seq(x), norm_sqr_seq(n, x))
}

/// Whether the inverse of `x` can be computed in `[lo, hi]`: the squared
/// norm is nonzero and fits, and so does the conjugate.
pub open spec fn inv_fits(n: nat, x: Seq<int>, lo: int, hi: int) -> bool {
    &&& norm_sqr_seq(n, x) != 0
    &&& norm_sqr_seq(n, x) <= hi
    &&& in_range(conj_seq(x), lo, hi)
}

/// The quotient: at depth 0 the scalar quotient rounded toward zero, above
/// it `x * inv(y)`.
pub open spec fn div_seq(n: nat, x: Seq<int>, y: Seq<int>) -> Seq<int> {
    if n == 0 {
        seq![tdiv(x[0], y[0])]
    } else {
        mul_seq(n, x, inv_seq(n, y))
    }
}

/// Whether the quotient can be computed in `[lo, hi]`.
pub open spec fn div_fits(n: nat, x: Seq<int>, y: Seq<int>, lo: int, hi: int) -> bool {
    if n == 0 {
        y[0] != 0 && lo <= tdiv(x[0], y[0]) <= hi
    } else {
        inv_fits(n, y, lo, hi) && mul_fits(n, x, inv_seq(n, y), lo, hi)
    }
}

pub proof fn lemma_pow2_pos(n: nat)
    ensures
        pow2(n) >= 1,
    decreases n,
{
    if n > 0 {
        lemma_pow2_pos((n - 1) as nat);
    }
}

/// An element of depth `n + 1` is its two halves put together.
pub proof fn lemma_halves(n: nat, x: Seq<int>)
    requires
        n > 0,
        wf(n, x),
    ensures
        wf((n - 1) as nat, re_half(n, x)),
        wf((n - 1) as nat, im_half(n, x)),
        re_half(n, x) + im_half(n, x) == x,
{
    lemma_pow2_pos((n - 1) as nat);
    assert(re_half(n, x) + im_half(n, x) =~= x);
}

/// The halves of a concatenation of two elements of depth `n - 1`.
pub proof fn lemma_halves_of_concat(n: nat, a: Seq<int>, b: Seq<int>)
    requires
        n > 0,
        wf((n - 1) as nat, a),
        wf((n - 1) as nat, b),
    ensures
        wf(n, a + b),
        re_half(n, a + b) == a,
        im_half(n, a + b) == b,
{
    assert(re_half(n, a + b) =~= a);
    assert(im_half(n, a + b) =~= b);
}

pub proof fn lemma_mul_len(n: nat, x: Seq<int>, y: Seq<int>)
    requires
        wf(n, x),
        wf(n, y),
    ensures
        wf(n, mul_seq(n, x, y)),
    decreases n,
{
    if n > 0 {
        let m = (n - 1) as nat;
        lemma_halves(n, x);
        lemma_halves(n, y);
        let a = re_half(n, x);
        let b = im_half(n, x);
        let c = re_half(n, y);
        let d = im_half(n, y);
        lemma_mul_len(m, a, c);
        lemma_mul_len(m, conj_seq(d), b);
        lemma_mul_len(m, d, a);
        lemma_mul_len(m, b, conj_seq(c));
    }
}

/// The squared norm is never negative.
pub proof fn lemma_norm_sqr_nonneg(n: nat, x: Seq<int>)
    ensures
        norm_sqr_seq(n, x) >= 0,
    decreases n,
{
    if n == 0 {
        let v = x[0];
        assert(v * v >= 0) by (nonlinear_arith);
    } else {
        lemma_norm_sqr_nonneg((n - 1) as nat, re_half(n, x));
        lemma_norm_sqr_nonneg((n - 1) as nat, im_half(n, x));
    }
}

/// The L1 norm is never negative.
pub proof fn lemma_norm_l1_nonneg(n: nat, x: Seq<int>)
    ensures
        norm_l1_seq(n, x) >= 0,
    decreases n,
{
    if n > 0 {
        lemma_norm_l1_nonneg((n - 1) as nat, re_half(n, x));
        lemma_norm_l1_nonneg((n - 1) as nat, im_half(n, x));
    }
}

/// The conjugate of a concatenation: the real half is conjugated and the
/// imaginary half negated.
pub proof fn lemma_conj_concat(a: Seq<int>, b: Seq<int>)
    requires
        a.len() >= 1,
    ensures
        conj_seq(a + b) == conj_seq(a) + neg_seq(b),
{
    assert(conj_seq(a + b) =~= conj_seq(a) + neg_seq(b));
}

pub proof fn lemma_add_concat(a: Seq<int>, b: Seq<int>, c: Seq<int>, d: Seq<int>)
    requires
        a.len() == c.len(),
        b.len() == d.len(),
    ensures
        add_seq(a + b, c + d) == add_seq(a, c) + add_seq(b, d),
        sub_seq(a + b, c + d) == sub_seq(a, c) + sub_seq(b, d),
{
    assert(add_seq(a + b, c + d) =~= add_seq(a, c) + add_seq(b, d));
    assert(sub_seq(a + b, c + d) =~= sub_seq(a, c) + sub_seq(b, d));
}

pub proof fn lemma_pointwise_concat(a: Seq<int>, b: Seq<int>, k: int)
    ensures
        neg_seq(a + b) == neg_seq(a) + neg_seq(b),
        scale_seq(a + b, k) == scale_seq(a, k) + scale_seq(b, k),
        div_scalar_seq(a + b, k) == div_scalar_seq(a, k) + div_scalar_seq(b, k),
{
    assert(neg_seq(a + b) =~= neg_seq(a) + neg_seq(b));
    assert(scale_seq(a + b, k) =~= scale_seq(a, k) + scale_seq(b, k));
    assert(div_scalar_seq(a + b, k) =~= div_scalar_seq(a, k) + div_scalar_seq(b, k));
}

pub proof fn lemma_shift_concat(a: Seq<int>, b: Seq<int>, k: int)
    requires
        a.len() >= 1,
    ensures
        shift_seq(a + b, k) == shift_seq(a, k) + b,
{
    assert(shift_seq(a + b, k) =~= shift_seq(a, k) + b);
}

pub proof fn lemma_zero_one_concat(n: nat)
    requires
        n > 0,
    ensures
        zero_seq(n) == zero_seq((n - 1) as nat) + zero_seq((n - 1) as nat),
        one_seq(n) == one_seq((n - 1) as nat) + zero_seq((n - 1) as nat),
{
    let m = (n - 1) as nat;
    lemma_pow2_pos(m);
    assert(zero_seq(n) =~= zero_seq(m) + zero_seq(m));
    assert(one_seq(n) =~= one_seq(m) + zero_seq(m));
}

/// A sub-range of a sequence in range is in range.
pub proof fn lemma_in_range_concat(a: Seq<int>, b: Seq<int>, lo: int, hi: int)
    ensures
        in_range(a + b, lo, hi) <==> (in_range(a, lo, hi) && in_range(b, lo, hi)),
{
    if in_range(a + b, lo, hi) {
        assert forall|i: int| 0 <= i < a.len() implies lo <= #[trigger] a[i] <= hi by {
            assert((a + b)[i] == a[i]);
        }
        assert forall|i: int| 0 <= i < b.len() implies lo <= #[trigger] b[i] <= hi by {
            assert((a + b)[a.len() + i] == b[i]);
        }
    }
}

} // verus!
