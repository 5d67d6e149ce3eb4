//! Cayley–Dickson constructions over the signed integers: complex numbers,
//! quaternions, octonions, sedenions and beyond, built by repeatedly pairing
//! an algebra with itself.
//!
//! `Construct<T, U>` pairs two values of the component algebra `U` over the
//! base scalar `T` (`i8`, `i16`, `i32` or `i64`). Every value is modelled by
//! its `2^depth` integer coordinates (`Hypercomplex::coords`), and every
//! operation is specified on that model in `model`: an operation is defined
//! exactly on the inputs for which no intermediate value leaves the range of
//! `T`, and division rounds each coordinate toward zero as Rust's integer
//! division does. The algebraic laws of the construction are proved in
//! `laws`.
use vstd::prelude::*;

pub mod model;
pub mod traits;
pub mod scalar;
pub mod construct;
pub mod ops;
pub mod second_order;
pub mod specific;
pub mod format;
pub mod laws;
pub mod transform;

pub use traits::{Hypercomplex, Conj, Dot, NormSqr, Norm, NormL1, Algebra};
pub use construct::{Construct, Unsupported};
pub use transform::traits::{Transform, Identity, Chain, Deriv, DerivDir};
pub use transform::moebius::Moebius;
pub use format::{FmtType, Format};

verus! {

/// 2-dimensional commutative and associative algebra.
pub type Complex<T> = Construct<T, T>;

/// 4-dimensional associative but non-commutative algebra.
pub type Quaternion<T> = Construct<T, Complex<T>>;

/// 8-dimensional non-commutative and non-associative algebra.
pub type Octonion<T> = Construct<T, Quaternion<T>>;

/// 16-dimensional non-commutative and non-associative algebra with nontrivial
/// zero divisors.
pub type Sedenion<T> = Construct<T, Octonion<T>>;

} // verus!
