use hypercomplex::{Algebra, Complex, Conj, Dot, Norm, NormL1, NormSqr, Octonion, Quaternion, Sedenion};

fn octonion(c: [i64; 8]) -> Octonion<i64> {
    Octonion::new(
        Quaternion::new2(c[0], c[1], c[2], c[3]),
        Quaternion::new2(c[4], c[5], c[6], c[7]),
    )
}

#[test]
fn conj_is_involutive() {
    let o = octonion([1, -2, 3, -4, 5, -6, 7, -8]);
    assert_eq!(o.conj().conj(), o);
    assert_eq!(o.conj(), octonion([1, 2, -3, 4, -5, 6, -7, 8]));
}

#[test]
fn divide_unit_by_itself() {
    let q = Quaternion::<i32>::new2(0, 0, -1, 0);
    assert_eq!(q / q, Quaternion::one());
    let c = Complex::<i32>::new(0, 1);
    assert_eq!(c / c, Complex::one());
    assert_eq!(7i32.div(7), 1);
    assert_eq!((-7i32).div(-7), 1);
}

#[test]
fn division_rounds_toward_zero() {
    // (3 + 4i) / (1 + 2i): the inverse (1 - 2i) / 5 rounds to 0.
    let a = Complex::<i32>::new(3, 4);
    let b = Complex::<i32>::new(1, 2);
    assert_eq!(a / b, Complex::new(0, 0));
    // (10 + 20i) / 5 and 1 / (2 + 0i) on the scalar side.
    assert_eq!(Complex::<i32>::new(10, -20) / 5, Complex::new(2, -4));
    assert_eq!(Complex::<i32>::new(-7, 7) / 2, Complex::new(-3, 3));
    assert_eq!(Complex::<i32>::new(1, 0).inv(), Complex::new(1, 0));
    assert_eq!(Complex::<i32>::new(0, 1).inv(), Complex::new(0, -1));
    assert_eq!(1 / Complex::<i32>::new(0, -1), Complex::new(0, 1));
}

#[test]
fn complex_commutes_octonion_does_not() {
    let a = Complex::<i32>::new(2, -3);
    let b = Complex::<i32>::new(-5, 7);
    assert_eq!(a * b, b * a);
    let x = octonion([0, 1, 0, 0, 0, 0, 0, 0]);
    let y = octonion([0, 0, 1, 0, 0, 0, 0, 0]);
    assert_ne!(x * y, y * x);
}

#[test]
fn quaternion_associates_octonion_does_not() {
    let x = Quaternion::<i64>::new2(1, 2, 3, 4);
    let y = Quaternion::<i64>::new2(-5, 6, -7, 8);
    let z = Quaternion::<i64>::new2(2, 0, -1, 3);
    assert_eq!((x * y) * z, x * (y * z));
    let a = octonion([0, 1, 0, 0, 0, 0, 0, 0]);
    let b = octonion([0, 0, 1, 0, 0, 0, 0, 0]);
    let c = octonion([0, 0, 0, 0, 1, 0, 0, 0]);
    assert_ne!((a * b) * c, a * (b * c));
}

#[test]
fn conj_keeps_norm() {
    let o = octonion([1, -2, 3, -4, 5, -6, 7, -8]);
    assert_eq!(o.norm_sqr(), 204);
    assert_eq!(o.conj().norm_sqr(), 204);
}

#[test]
fn norm_identity() {
    let o = octonion([1, -2, 3, -4, 5, -6, 7, -8]);
    assert_eq!(o * o.conj(), Octonion::one() * 204);
    assert_eq!(o.conj() * o, Octonion::one() * 204);
    let q = Quaternion::<i32>::new2(1, 2, 3, 4);
    assert_eq!(q * q.conj(), Quaternion::new2(30, 0, 0, 0));
}

#[test]
fn complex_scenarios() {
    assert_eq!(Complex::<i32>::new(1, 2) + Complex::new(3, 4), Complex::new(4, 6));
    assert_eq!(Complex::<i32>::new(1, 2) * Complex::new(3, 4), Complex::new(-5, 10));
}

#[test]
fn quaternion_units() {
    let i = Quaternion::<i32>::i();
    let j = Quaternion::<i32>::j();
    let k = Quaternion::<i32>::k();
    let one = Quaternion::<i32>::one();
    assert_eq!(i * i, -one);
    assert_eq!(j * j, -one);
    assert_eq!(k * k, -one);
    assert_eq!(i * j, k);
    assert_eq!(j * k, i);
    assert_eq!(k * i, j);
    assert_eq!(j * i, -k);
    assert_eq!(Complex::<i32>::i() * Complex::i(), Complex::new(-1, 0));
}

#[test]
fn scalar_operations() {
    let c = Complex::<i32>::new(1, 2);
    assert_eq!(c + 3, Complex::new(4, 2));
    assert_eq!(3 + c, Complex::new(4, 2));
    assert_eq!(c - 3, Complex::new(-2, 2));
    assert_eq!(3 - c, Complex::new(2, -2));
    assert_eq!(-c, Complex::new(-1, -2));
    assert_eq!(c.add_scalar(1).sub_scalar(2), Complex::new(0, 2));
    assert_eq!(c.mul_scalar(-3).div_scalar(3), Complex::new(-1, -2));
}

#[test]
fn norms_and_dot() {
    let q = Quaternion::<i32>::new2(1, -2, 3, -4);
    let p = Quaternion::<i32>::new2(2, 2, 2, 2);
    assert_eq!(q.dot(p), -4);
    assert_eq!(q.norm_l1(), 10);
    assert_eq!(q.abs_sqr(), 30);
    assert_eq!((-5i32).norm(), 5);
    assert_eq!((-5i32).abs(), 5);
    assert!(Quaternion::<i32>::zero().is_zero());
    assert!(!q.is_zero());
}

#[test]
fn mixed_level_operations() {
    let q = Quaternion::<i32>::new2(1, 2, 3, 4);
    let c = Complex::<i32>::new(10, 20);
    assert_eq!(q + c, Quaternion::new2(11, 22, 3, 4));
    assert_eq!(c + q, Quaternion::new2(11, 22, 3, 4));
    assert_eq!(q - c, Quaternion::new2(-9, -18, 3, 4));
    assert_eq!(c - q, Quaternion::new2(9, 18, -3, -4));
    assert_eq!(c - q, Quaternion::new2(10, 20, 0, 0) - q);
    assert_eq!(q + c, q + Quaternion::new2(10, 20, 0, 0));
    assert_eq!(q * c, Quaternion::new2(-30, 40, -50, 100));
    assert_eq!(c * q, Quaternion::new2(-30, 40, -50, 100));
    let u = Complex::<i32>::new(0, 1);
    assert_eq!(q / u, Quaternion::new2(2, -1, 4, -3));
    let j = Quaternion::<i32>::j();
    assert_eq!(u / j, Quaternion::new2(0, 0, 0, -1));
}

#[test]
fn sedenion_depth() {
    let z = Sedenion::<i8>::zero();
    let one = Sedenion::<i8>::one();
    assert_eq!(one * one, one);
    assert_eq!(z + one, one);
    assert_eq!(one.norm_sqr(), 1i8);
}

#[test]
fn unsupported_operations() {
    use_unsupported();
}

fn use_unsupported() {
    let c = Complex::<i32>::new(3, 4);
    assert_eq!(c.rem(Complex::new(1, 1)), Err(hypercomplex::Unsupported::Remainder));
    assert_eq!(Complex::<i32>::from_str_radix("1+2i", 10), Err(hypercomplex::Unsupported::FromStrRadix));
}

fn sedenion(c: [i32; 16]) -> Sedenion<i32> {
    let half = |k: usize| {
        Octonion::new(
            Quaternion::new2(c[k], c[k + 1], c[k + 2], c[k + 3]),
            Quaternion::new2(c[k + 4], c[k + 5], c[k + 6], c[k + 7]),
        )
    };
    Sedenion::new(half(0), half(8))
}

/// Sums of two signed basis units, `e_i ± e_j`.
fn two_unit_sums() -> Vec<[i32; 16]> {
    let mut out = Vec::new();
    for i in 0..16 {
        for j in (i + 1)..16 {
            for sign in [1, -1] {
                let mut c = [0; 16];
                c[i] = 1;
                c[j] = sign;
                out.push(c);
            }
        }
    }
    out
}

#[test]
fn sedenions_have_zero_divisors() {
    let zero = Sedenion::<i32>::zero();
    let sums = two_unit_sums();
    let mut found = false;
    'search: for x in &sums {
        for y in &sums {
            if sedenion(*x) * sedenion(*y) == zero {
                found = true;
                break 'search;
            }
        }
    }
    assert!(found);
}

#[test]
fn octonions_have_no_such_zero_divisors() {
    let zero = Octonion::<i64>::zero();
    for i in 0..8 {
        for j in (i + 1)..8 {
            for k in 0..8 {
                for l in (k + 1)..8 {
                    for (s, t) in [(1, 1), (1, -1), (-1, 1), (-1, -1)] {
                        let mut x = [0i64; 8];
                        x[i] = 1;
                        x[j] = s;
                        let mut y = [0i64; 8];
                        y[k] = 1;
                        y[l] = t;
                        assert_ne!(octonion(x) * octonion(y), zero);
                    }
                }
            }
        }
    }
}

#[test]
fn limits_of_the_base_type() {
    let c = Complex::<i8>::new(127, -128);
    assert_eq!(c + Complex::new(0, 127), Complex::new(127, -1));
    assert_eq!(Complex::<i8>::new(-128, 127).conj(), Complex::new(-128, -127));
    assert_eq!(Complex::<i8>::new(-128, 0) / 1, Complex::new(-128, 0));
    assert_eq!(Complex::<i8>::new(8, -7).norm_sqr(), 113);
    assert_eq!(Complex::<i8>::new(-128, 127).div_scalar(2), Complex::new(-64, 63));
}
