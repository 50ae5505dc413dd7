//! Strategies over fixed-size arrays.

use vstd::prelude::*;

use crate::strategy::Strategy;

verus! {

/// An array whose elements are drawn from one element strategy; `T` is
/// the array type produced.
pub struct ArrayStrategy<S, T> {
    pub s: S,
    pub marker: core::marker::PhantomData<T>,
}

impl<S: Strategy, T> ArrayStrategy<S, T> {
    /// An array strategy drawing each element from `s`.
    pub fn new(s: S) -> (r: Self)
        ensures
            r == (ArrayStrategy { s, marker: core::marker::PhantomData::<T> }),
    {
        Self { s, marker: core::marker::PhantomData }
    }
}

impl<S: Strategy> Strategy for ArrayStrategy<S, [<S as Strategy>::Value; 2]> {
    type Value = [<S as Strategy>::Value; 2];

    open spec fn feasible(&self) -> bool {
        self.s.feasible()
    }

    open spec fn admits(&self, v: [<S as Strategy>::Value; 2]) -> bool {
        forall|i: int| 0 <= i < 2 ==> self.s.admits(#[trigger] v@[i])
    }

    fn value(&self) -> (r: [<S as Strategy>::Value; 2]) {
        let a0 = self.s.value();
        let a1 = self.s.value();
        let r = [a0, a1];
        proof {
            assert(self.s.admits(r@[0]));
            assert(self.s.admits(r@[1]));
        }
        r
    }
}

/// An array strategy for two elements drawn from `s`.
pub fn uniform2<S: Strategy>(s: S) -> (r: ArrayStrategy<S, [<S as Strategy>::Value; 2]>)
    ensures
        r == (ArrayStrategy { s, marker: core::marker::PhantomData::<[<S as Strategy>::Value; 2]> }),
{
    ArrayStrategy { s, marker: core::marker::PhantomData }
}

impl<S: Strategy> Strategy for ArrayStrategy<S, [<S as Strategy>::Value; 4]> {
    type Value = [<S as Strategy>::Value; 4];

    open spec fn feasible(&self) -> bool {
        self.s.feasible()
    }

    open spec fn admits(&self, v: [<S as Strategy>::Value; 4]) -> bool {
        forall|i: int| 0 <= i < 4 ==> self.s.admits(#[trigger] v@[i])
    }

    fn value(&self) -> (r: [<S as Strategy>::Value; 4]) {
        let a0 = self.s.value();
        let a1 = self.s.value();
        let a2 = self.s.value();
        let a3 = self.s.value();
        let r = [a0, a1, a2, a3];
        proof {
            assert(self.s.admits(r@[0]));
            assert(self.s.admits(r@[1]));
            assert(self.s.admits(r@[2]));
            assert(self.s.admits(r@[3]));
        }
        r
    }
}

/// An array strategy for four elements drawn from `s`.
pub fn uniform4<S: Strategy>(s: S) -> (r: ArrayStrategy<S, [<S as Strategy>::Value; 4]>)
    ensures
        r == (ArrayStrategy { s, marker: core::marker::PhantomData::<[<S as Strategy>::Value; 4]> }),
{
    ArrayStrategy { s, marker: core::marker::PhantomData }
}

} // verus!
