//! What a transformation of algebra elements offers. Each operation is
//! described by spec functions that an implementation defines: where it is
//! defined (`*_req`) and what it returns (`*_spec`).
use vstd::prelude::*;

verus! {

/// Complex and hypercomplex transformation basic trait.
pub trait Transform<U>: Sized {
    spec fn apply_req(&self, x: U) -> bool;

    spec fn apply_spec(&self, x: U) -> U;

    /// Apply the transformation.
    fn apply(&self, x: U) -> (r: U)
        requires
            self.apply_req(x),
        ensures
            r == self.apply_spec(x),
    ;
}

/// Transformation that has an identity element.
pub trait Identity: Sized {
    spec fn identity_spec() -> Self;

    /// Get an identity element.
    fn identity() -> (r: Self)
        ensures
            r == Self::identity_spec(),
    ;
}

/// Transformation whose instances can be chained into another one.
pub trait Chain<U>: Transform<U> {
    spec fn chain_req(&self, other: &Self) -> bool;

    spec fn chain_spec(&self, other: &Self) -> Self;

    /// The transformation that applies `other` first, then `self`.
    fn chain(self, other: Self) -> (r: Self)
        requires
            self.chain_req(&other),
        ensures
            r == self.chain_spec(&other),
    ;
}

/// Differentiable transformation.
pub trait Deriv<U>: Transform<U> {
    spec fn deriv_req(&self, p: U) -> bool;

    spec fn deriv_spec(&self, p: U) -> U;

    /// Find the derivative of `self` at the point `p`.
    fn deriv(&self, p: U) -> (r: U)
        requires
            self.deriv_req(p),
        ensures
            r == self.deriv_spec(p),
    ;
}

/// Directionally differentiable transformation.
pub trait DerivDir<U>: Transform<U> {
    spec fn deriv_dir_req(&self, p: U, v: U) -> bool;

    spec fn deriv_dir_spec(&self, p: U, v: U) -> U;

    /// Find the directional derivative of `self` at the point `p` along the
    /// direction `v`.
    fn deriv_dir(&self, p: U, v: U) -> (r: U)
        requires
            self.deriv_dir_req(p, v),
        ensures
            r == self.deriv_dir_spec(p, v),
    ;
}

} // verus!
