use hypercomplex::{Complex, FmtType, Octonion, Quaternion, Sedenion};
use hypercomplex::Construct;
use hypercomplex::Algebra;

#[test]
fn complex() {
    let c = Complex::<i32>::new(1, -2);
    assert_eq!(c.format(FmtType::Debug), "Complex(1, -2)");
    assert_eq!(c.format(FmtType::Display), "Complex(1, -2)");
}

#[test]
fn quaternion() {
    let q = Quaternion::<i32>::new2(1, -2, 3, -4);
    assert_eq!(q.format(FmtType::Debug), "Quaternion(1, -2, 3, -4)");
    assert_eq!(q.format(FmtType::Display), "Quaternion(1, -2, 3, -4)");
}

#[test]
fn deeper_names() {
    assert_eq!(Octonion::<i8>::one().format(FmtType::Display), "Octonion(1, 0, 0, 0, 0, 0, 0, 0)");
    let s = Sedenion::<i16>::zero().format(FmtType::Display);
    assert!(s.starts_with("Sedenion(0, 0"));
    let c5 = Construct::<i64, Sedenion<i64>>::one().format(FmtType::Debug);
    assert!(c5.starts_with("Construct5(1, 0, "));
}

#[test]
fn extreme_integers() {
    let c = Complex::<i64>::new(i64::MIN, i64::MAX);
    assert_eq!(c.format(FmtType::Display), "Complex(-9223372036854775808, 9223372036854775807)");
    let z = Complex::<i32>::new(0, 10);
    assert_eq!(z.format(FmtType::Display), "Complex(0, 10)");
}
