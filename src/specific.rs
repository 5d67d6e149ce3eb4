//! The imaginary units of the complex numbers and of the quaternions.
use vstd::prelude::*;
use crate::traits::{Hypercomplex, Algebra};
use crate::construct::Construct;

verus! {

impl<T: Algebra<T>> Construct<T, T> {
    /// The imaginary unit `i`.
    pub fn i() -> (r: Self)
        ensures
            r.coords() == seq![0int, 1],
    {
        let r = Self::new(T::zero(), T::one());
        proof {
            r.lemma_coords_split();
            T::lemma_base();
            assert(crate::model::pow2(0) == 1);
            assert(crate::model::zero_seq(0) =~= seq![0int]);
            assert(crate::model::one_seq(0) =~= seq![1int]);
            assert(r.coords() =~= seq![0int, 1]);
        }
        r
    }
}

impl<T: Algebra<T>> Construct<T, Construct<T, T>> {
    /// The quaternion with the single coordinate `1` at `index`.
    fn unit(index: usize) -> (r: Self)
        requires
            index < 4,
        ensures
            r.coords() == Seq::new(4, |k: int| if k == index { 1int } else { 0 }),
    {
        let w = if index == 0 { T::one() } else { T::zero() };
        let x = if index == 1 { T::one() } else { T::zero() };
        let y = if index == 2 { T::one() } else { T::zero() };
        let z = if index == 3 { T::one() } else { T::zero() };
        let r = Self::new2(w, x, y, z);
        proof {
            r.lemma_coords_split();
            r.re_spec().lemma_coords_split();
            r.im_spec().lemma_coords_split();
            T::lemma_base();
            assert(crate::model::pow2(0) == 1);
            assert(crate::model::zero_seq(0) =~= seq![0int]);
            assert(crate::model::one_seq(0) =~= seq![1int]);
            assert(r.coords() =~= Seq::new(4, |k: int| if k == index { 1int } else { 0 }));
        }
        r
    }

    /// The quaternion unit `i`.
    pub fn i() -> (r: Self)
        ensures
            r.coords() == seq![0int, 1, 0, 0],
    {
        let r = Self::unit(1);
        proof {
            assert(r.coords() =~= seq![0int, 1, 0, 0]);
        }
        r
    }

    /// The quaternion unit `j`.
    pub fn j() -> (r: Self)
        ensures
            r.coords() == seq![0int, 0, 1, 0],
    {
        let r = Self::unit(2);
        proof {
            assert(r.coords() =~= seq![0int, 0, 1, 0]);
        }
        r
    }

    /// The quaternion unit `k`.
    pub fn k() -> (r: Self)
        ensures
            r.coords() == seq![0int, 0, 0, 1],
    {
        let r = Self::unit(3);
        proof {
            assert(r.coords() =~= seq![0int, 0, 0, 1]);
        }
        r
    }
}

} // verus!
