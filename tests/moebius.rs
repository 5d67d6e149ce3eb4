use hypercomplex::{Chain, Complex, Deriv, DerivDir, Identity, Moebius, Octonion, Quaternion, Transform};

fn octonion(c: [i32; 8]) -> Octonion<i32> {
    Octonion::new(
        Quaternion::new2(c[0], c[1], c[2], c[3]),
        Quaternion::new2(c[4], c[5], c[6], c[7]),
    )
}

fn unit8(index: usize) -> Octonion<i32> {
    let mut c = [0; 8];
    c[index] = 1;
    octonion(c)
}

#[test]
fn moebius2_chain() {
    let zero = Complex::new(0, 0);
    let one = Complex::new(1, 0);
    let a = Moebius::new(Complex::new(1, 2), Complex::new(-3, 1), zero, one);
    let b = Moebius::new(Complex::new(2, -1), Complex::new(0, 4), zero, one);
    let c = a.chain(b);
    for k in 0..10 {
        let x = Complex::<i32>::new(k - 5, 2 * k - 7);
        let y = a.apply(b.apply(x));
        let z = c.apply(x);
        assert_eq!(y.re(), z.re());
        assert_eq!(y.im(), z.im());
    }
}

#[test]
fn moebius4_chain() {
    let zero = Quaternion::new2(0, 0, 0, 0);
    let one = Quaternion::new2(1, 0, 0, 0);
    let a = Moebius::new(Quaternion::new2(1, 2, -1, 3), Quaternion::new2(0, 1, 2, -2), zero, one);
    let b = Moebius::new(Quaternion::new2(-2, 1, 1, 0), Quaternion::new2(3, 0, -1, 1), zero, one);
    let c = a.chain(b);
    for k in 0..10 {
        let x = Quaternion::<i32>::new2(k - 5, 2 - k, k, 3 * k - 10);
        let y = a.apply(b.apply(x));
        let z = c.apply(x);
        assert_eq!(y.w(), z.w());
        assert_eq!(y.x(), z.x());
        assert_eq!(y.y(), z.y());
        assert_eq!(y.z(), z.z());
    }
}

/// Moebius transform over octonions isn't chainable and therefore should panic
#[test]
#[should_panic]
fn moebius8_chain() {
    let zero = octonion([0; 8]);
    let one = unit8(0);
    let a = Moebius::new(unit8(1), zero, zero, one);
    let b = Moebius::new(unit8(2), zero, zero, one);
    let c = a.chain(b);
    let x = unit8(4);
    let y = a.apply(b.apply(x));
    let z = c.apply(x);
    assert_eq!(y, z);
}

#[test]
fn moebius_apply_divides() {
    // (x + 1) / (x - 1) at x = 2 is 3 / 1, at x = 1 + i it is (2 + i) / i.
    let one = Complex::<i32>::new(1, 0);
    let m = Moebius::new(one, one, one, Complex::new(-1, 0));
    assert_eq!(m.apply(Complex::new(2, 0)), Complex::new(3, 0));
    assert_eq!(m.apply(Complex::new(1, 1)), Complex::new(1, -2));
    // A divisor that is not a unit: the inverse of 2 rounds to 0.
    assert_eq!(m.apply(Complex::new(3, 0)), Complex::new(0, 0));
}

#[test]
fn moebius_accessors_and_det() {
    let m = Moebius::new(
        Complex::<i32>::new(1, 1),
        Complex::new(2, 0),
        Complex::new(0, 3),
        Complex::new(4, -1),
    );
    assert_eq!(m.a(), Complex::new(1, 1));
    assert_eq!(*m.b_ref(), Complex::new(2, 0));
    assert_eq!(m.c(), Complex::new(0, 3));
    assert_eq!(*m.d_ref(), Complex::new(4, -1));
    // (1 + i)(4 - i) - 2(3i) = 5 + 3i - 6i = 5 - 3i
    assert_eq!(m.det(), Complex::new(5, -3));
}

#[test]
fn moebius_identity_and_normalize() {
    let id = Moebius::<i32, Complex<i32>>::identity();
    let x = Complex::new(7, -3);
    assert_eq!(id.apply(x), x);
    // det = 1 - 2 = -1, every coefficient is divided by it.
    let one = Complex::<i32>::new(1, 0);
    let m = Moebius::new(one, Complex::new(2, 0), one, one);
    assert_eq!(m.det(), Complex::new(-1, 0));
    let n = m.normalize();
    assert_eq!(n.a(), Complex::new(-1, 0));
    assert_eq!(n.b(), Complex::new(-2, 0));
    assert_eq!(n.c(), Complex::new(-1, 0));
    assert_eq!(n.d(), Complex::new(-1, 0));
}

#[test]
fn moebius_deriv() {
    // x -> 3x + 1 has derivative 3 everywhere.
    let zero = Complex::<i32>::new(0, 0);
    let one = Complex::new(1, 0);
    let m = Moebius::new(Complex::new(3, 0), one, zero, one);
    assert_eq!(m.deriv(Complex::new(5, 2)), Complex::new(3, 0));
    assert_eq!(m.deriv_dir(Complex::new(5, 2), Complex::new(0, 1)), Complex::new(0, 3));
}

#[test]
fn moebius_complex_coefficients_on_quaternions() {
    // x -> i*x + 1: i multiplies both complex halves, 1 is added to the real half.
    let zero = Complex::<i32>::new(0, 0);
    let one = Complex::new(1, 0);
    let m = Moebius::new(Complex::new(0, 1), one, zero, one);
    let x = Quaternion::<i32>::new2(1, 2, 3, 4);
    assert_eq!(m.apply(x), Quaternion::new2(-1, 1, -4, 3));
}

#[test]
fn moebius_quaternion_directional_derivative() {
    let zero = Complex::<i32>::new(0, 0);
    let one = Complex::new(1, 0);
    let p = Quaternion::<i32>::new2(1, 2, 3, 4);
    let v = Quaternion::<i32>::new2(0, 1, -1, 2);
    // The identity map moves along v at rate one.
    let id = Moebius::new(one, zero, zero, one);
    assert_eq!(id.deriv_dir(p, v), v);
    // x -> 2x + 1 moves along v at rate two.
    let m = Moebius::new(Complex::new(2, 0), one, zero, one);
    assert_eq!(m.deriv_dir(p, v), Quaternion::new2(0, 2, -2, 4));
}

#[test]
fn moebius_array_conversions() {
    let coefficients = [Complex::<i32>::new(1, 0), Complex::new(2, 0), Complex::new(3, 0), Complex::new(4, 0)];
    let m: Moebius<i32, Complex<i32>> = Moebius::from(coefficients);
    assert_eq!(m.c(), Complex::new(3, 0));
    let back: [Complex<i32>; 4] = m.into();
    assert_eq!(back, coefficients);
}

#[test]
fn moebius_coefficient_mutation() {
    let zero = Complex::<i32>::new(0, 0);
    let one = Complex::new(1, 0);
    let mut m = Moebius::new(one, zero, zero, one);
    *m.a_mut() = Complex::new(2, 0);
    *m.b_mut() = one;
    *m.c_mut() = zero;
    *m.d_mut() = one;
    assert_eq!(m.apply(Complex::new(3, 1)), Complex::new(7, 2));
}
