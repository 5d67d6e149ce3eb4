use hypercomplex::{Complex, Conj, Quaternion};

#[test]
fn new2() {
    let c = Complex::<i32>::new(1, 2);
    assert_eq!(c.re(), 1);
    assert_eq!(c.im(), 2);
}

#[test]
fn test_conj2() {
    let c = Complex::<i32>::new(1, 2).conj();
    assert_eq!(c.re(), 1);
    assert_eq!(c.im(), -2);
}

#[test]
fn test_conj4() {
    let c = Quaternion::<i32>::new4(1, 2, 3, 4).conj();
    assert_eq!(c.w(), 1);
    assert_eq!(c.x(), -2);
    assert_eq!(c.y(), -3);
    assert_eq!(c.z(), -4);
}

#[test]
fn test_add2() {
    let a = Complex::<i32>::new(1, 2);
    let b = Complex::<i32>::new(3, 4);
    let c = a + b;
    assert_eq!(c.re(), 4);
    assert_eq!(c.im(), 6);
}

#[test]
fn test_sub2() {
    let a = Complex::<i32>::new(2, 1);
    let b = Complex::<i32>::new(3, 4);
    let c = a - b;
    assert_eq!(c.re(), -1);
    assert_eq!(c.im(), -3);
}

#[test]
fn test_add4() {
    let a = Quaternion::<i32>::new4(1, 2, 3, 4);
    let b = Quaternion::<i32>::new4(5, 6, 7, 8);
    let c = a + b;
    assert_eq!(c.w(), 6);
    assert_eq!(c.x(), 8);
    assert_eq!(c.y(), 10);
    assert_eq!(c.z(), 12);
}

#[test]
fn test_sub4() {
    let a = Quaternion::<i32>::new4(4, 3, 2, 1);
    let b = Quaternion::<i32>::new4(5, 6, 7, 8);
    let c = a - b;
    assert_eq!(c.w(), -1);
    assert_eq!(c.x(), -3);
    assert_eq!(c.y(), -5);
    assert_eq!(c.z(), -7);
}

#[test]
fn test_mul2() {
    let a = Complex::<i32>::new(1, 2);
    let b = Complex::<i32>::new(3, 4);
    let c = a * b;
    assert_eq!(c.re(), -5);
    assert_eq!(c.im(), 10);
    let d = b * a;
    assert_eq!(d.re(), -5);
    assert_eq!(d.im(), 10);
}

#[test]
fn test_smul2() {
    let c = Complex::<i32>::new(1, 2);
    let tf = |a: Complex<i32>| {
        assert_eq!(a.re(), 2);
        assert_eq!(a.im(), 4);
    };
    tf(c * 2);
    tf(2 * c);
    tf(Complex::<i32>::new(2, 0) * c);
}

#[test]
fn test_mul4() {
    let a = Quaternion::<i32>::new4(1, 2, 3, 4);
    let b = Quaternion::<i32>::new4(5, 6, 7, 8);
    let c = a * b;
    assert_eq!(c.w(), -60);
    assert_eq!(c.x(), 12);
    assert_eq!(c.y(), 30);
    assert_eq!(c.z(), 24);
    let d = b * a;
    assert_eq!(d.w(), -60);
    assert_eq!(d.x(), 20);
    assert_eq!(d.y(), 14);
    assert_eq!(d.z(), 32);
}

#[test]
fn test_smul4() {
    let q = Quaternion::<i32>::new4(1, 2, 3, 4);
    let tf = |a: Quaternion<i32>| {
        assert_eq!(a.w(), 2);
        assert_eq!(a.x(), 4);
        assert_eq!(a.y(), 6);
        assert_eq!(a.z(), 8);
    };
    tf(q * 2);
    tf(2 * q);
    tf(Quaternion::<i32>::new4(2, 0, 0, 0) * q);
}

#[test]
fn constructor() {
    let a = Complex::<i32>::new(0, 1);
    assert_eq!(a.re(), 0);
    assert_eq!(a.im(), 1);
}

#[test]
fn split_round_trip() {
    let re = Complex::<i64>::new(3, -7);
    let im = Complex::<i64>::new(-2, 9);
    assert_eq!(Quaternion::new(re, im).split(), (re, im));
    let mut q = Quaternion::new(re, im);
    *q.re_mut() = im;
    *q.im_mut() = re;
    assert_eq!(q.split(), (im, re));
    assert_eq!(*q.re_ref(), im);
    assert_eq!(*q.im_ref(), re);
    assert_eq!(*q.w_ref(), -2);
    assert_eq!(*q.z_ref(), -7);
}

#[test]
fn component_mutation() {
    let mut q = Quaternion::<i32>::new2(1, 2, 3, 4);
    *q.w_mut() = 10;
    *q.x_mut() += 10;
    *q.y_mut() -= 10;
    *q.z_mut() = 0;
    assert_eq!(q, Quaternion::new2(10, 12, -7, 0));
}
