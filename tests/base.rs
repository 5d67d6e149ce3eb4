use hypercomplex::{Algebra, Complex, Conj, NormSqr, Quaternion};

#[test]
fn new() {
    let c = Complex::<i32>::new(1, 2);
    assert_eq!(c, Complex::new(1, 2));
}

#[test]
fn base_conj2() {
    let c = Complex::<i32>::new(1, 2).conj();
    assert_eq!(c, Complex::new(1, -2));
}

#[test]
fn base_conj4() {
    let c = Quaternion::<i32>::new2(1, 2, 3, 4).conj();
    assert_eq!(c, Quaternion::new2(1, -2, -3, -4));
}

#[test]
fn base_add2() {
    let a = Complex::<i32>::new(1, 2);
    let b = Complex::<i32>::new(3, 4);
    let c = a + b;
    assert_eq!(c, Complex::new(4, 6));

    let mut d = a;
    d = d + b;
    assert_eq!(d, Complex::new(4, 6));
}

#[test]
fn base_sub2() {
    let a = Complex::<i32>::new(2, 1);
    let b = Complex::<i32>::new(3, 4);
    let c = a - b;
    assert_eq!(c, Complex::new(-1, -3));

    let mut d = a;
    d = d - b;
    assert_eq!(d, Complex::new(-1, -3));
}

#[test]
fn base_add4() {
    let a = Quaternion::<i32>::new2(1, 2, 3, 4);
    let b = Quaternion::<i32>::new2(5, 6, 7, 8);
    let c = a + b;
    assert_eq!(c, Quaternion::new2(6, 8, 10, 12));
}

#[test]
fn base_sub4() {
    let a = Quaternion::<i32>::new2(4, 3, 2, 1);
    let b = Quaternion::<i32>::new2(5, 6, 7, 8);
    let c = a - b;
    assert_eq!(c, Quaternion::new2(-1, -3, -5, -7));
}

#[test]
fn base_abs2() {
    let c = Complex::<i32>::new(1, 2);
    assert_eq!(c.abs_sqr(), 5);
}

#[test]
fn base_abs4() {
    let q = Quaternion::<i32>::new2(1, 2, 3, 4);
    assert_eq!(q.abs_sqr(), 30);
}

#[test]
fn base_mul2() {
    let a = Complex::<i32>::new(1, 2);
    let b = Complex::<i32>::new(3, 4);
    let c = a * b;
    assert_eq!(c, Complex::new(-5, 10));
    let d = b * a;
    assert_eq!(d, Complex::new(-5, 10));

    let mut e = a;
    e = e * b;
    assert_eq!(e, Complex::new(-5, 10));
}

#[test]
fn base_smul2() {
    let c = Complex::<i32>::new(1, 2);
    let f = 2;
    let tf = |a: Complex<i32>| {
        assert_eq!(a, Complex::new(2, 4));
    };
    tf(c * f);
    tf(f * c);
    tf(Complex::<i32>::new(f, 0) * c);

    let mut d = c;
    d = d * f;
    tf(d);
}

#[test]
fn base_mul4() {
    let a = Quaternion::<i32>::new2(1, 2, 3, 4);
    let b = Quaternion::<i32>::new2(5, 6, 7, 8);
    let c = a * b;
    assert_eq!(c, Quaternion::new2(-60, 12, 30, 24));
    let d = b * a;
    assert_eq!(d, Quaternion::new2(-60, 20, 14, 32));
}

#[test]
fn base_smul4() {
    let q = Quaternion::<i32>::new2(1, 2, 3, 4);
    let tf = |a: Quaternion<i32>| {
        assert_eq!(a, Quaternion::new2(2, 4, 6, 8));
    };
    tf(q * 2);
    tf(2 * q);
    tf(Quaternion::<i32>::new2(2, 0, 0, 0) * q);
}

#[test]
fn zero2() {
    let a = Complex::<i32>::zero();
    assert_eq!(a, Complex::new(0, 0));
}

#[test]
fn zero4() {
    let a = Quaternion::<i32>::zero();
    assert_eq!(a, Quaternion::new2(0, 0, 0, 0));
}

#[test]
fn one2() {
    let a = Complex::<i32>::one();
    assert_eq!(a, Complex::new(1, 0));
}

#[test]
fn one4() {
    let a = Quaternion::<i32>::one();
    assert_eq!(a, Quaternion::new2(1, 0, 0, 0));
}
