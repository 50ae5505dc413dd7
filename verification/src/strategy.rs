//! Strategies: descriptions of sets of values from which a test input is
//! drawn.
//!
//! A strategy's `admits` predicate is the set it stands for; `value`
//! draws a member.  Under a symbolic backend the member is arbitrary;
//! run concretely each strategy yields its designated witness.  The
//! combinators mirror the property-testing idiom: strategies compose by
//! mapping, flattening, filtering and union.

use vstd::prelude::*;

use crate::traits::AbstractValue;

pub mod arrays;
pub mod bools;
pub mod chars;
pub mod colls;
pub mod nums;
pub mod strings;

verus! {

/// A set of values from which one can be drawn.
pub trait Strategy: Sized {
    type Value;

    /// May `value` be called?  (The described set must not be empty, and
    /// every stored function must accept what it may be fed.)
    spec fn feasible(&self) -> bool;

    /// The set of values this strategy describes.
    spec fn admits(&self, v: Self::Value) -> bool;

    /// Draw one member of the set.
    fn value(&self) -> (r: Self::Value)
        requires
            self.feasible(),
        ensures
            self.admits(r),
    ;

    /// The image of this strategy under `fun`.
    fn prop_map<O, F: Fn(Self::Value) -> O>(self, fun: F) -> (r: MapStrategy<Self, F>)
        ensures
            r == (MapStrategy { source: self, fun }),
    {
        MapStrategy { source: self, fun }
    }

    /// The image of this strategy under the standard conversion to `O`.
    fn prop_map_into<O>(self) -> (r: MapInto<Self, O>)
        ensures
            r == (MapInto { source: self, output: core::marker::PhantomData::<O> }),
    {
        MapInto { source: self, output: core::marker::PhantomData }
    }

    /// The subset satisfying `fun`.  The predicate constrains a symbolic
    /// backend; run concretely it is an assumption, not a filter.
    fn prop_filter<F: Fn(&Self::Value) -> bool>(self, _whence: &str, fun: F) -> (r: Filter<
        Self,
        F,
    >)
        ensures
            r == (Filter { source: self, fun }),
    {
        Filter { source: self, fun }
    }

    /// The image under a partial function; absent images reject the path.
    fn prop_filter_map<F: Fn(Self::Value) -> Option<O>, O>(self, _whence: &str, fun: F) -> (r:
        FilterMap<Self, F>)
        ensures
            r == (FilterMap { source: self, fun }),
    {
        FilterMap { source: self, fun }
    }

    /// Either of two sets.
    fn prop_union(self, other: Self) -> (r: Union<Self>)
        ensures
            r == (Union { x: self, y: other }),
    {
        Union { x: self, y: other }
    }
}

/// Draw a strategy with `fun` from a draw of `source`, then draw from it.
pub fn prop_flat_map<S0: Strategy, S: Strategy, F: Fn(S0::Value) -> S>(source: S0, fun: F) -> (r:
    Flatten<MapStrategy<S0, F>>)
    ensures
        r == (Flatten { source: MapStrategy { source, fun } }),
{
    Flatten { source: MapStrategy { source, fun } }
}

/// Same drawing as `prop_flat_map`; kept distinct for compatibility with
/// the property-testing idiom, where only shrinking differs.
pub fn prop_ind_flat_map<S0: Strategy, S: Strategy, F: Fn(S0::Value) -> S>(source: S0, fun: F) -> (
    r: IndFlatten<MapStrategy<S0, F>>)
    ensures
        r == (IndFlatten { source: MapStrategy { source, fun } }),
{
    IndFlatten { source: MapStrategy { source, fun } }
}

/// Draw a value, then draw from the strategy it selects, keeping both.
pub fn prop_ind_flat_map2<S0: Strategy, S: Strategy, F: Fn(S0::Value) -> S>(source: S0, fun: F) -> (
    r: IndFlattenMap<S0, F>)
    ensures
        r == (IndFlattenMap { source, fun }),
{
    IndFlattenMap { source, fun }
}

/// Types with a canonical strategy covering every value.
pub trait Arbitrary: Sized {
    type Strategy: Strategy<Value = Self>;

    fn arbitrary() -> (r: Self::Strategy)
        ensures
            r.feasible(),
    ;
}

pub type StrategyFor<A> = <A as Arbitrary>::Strategy;

/// The canonical strategy for `A`, under a shorter name.
pub fn any<A: Arbitrary>() -> (r: StrategyFor<A>)
    ensures
        r.feasible(),
{
    A::arbitrary()
}

/// Is this execution a counterexample replay?  (Never, under this
/// library's concrete semantics.)
pub fn prop_is_replay() -> (r: bool)
    ensures
        !r,
{
    crate::annotations::is_replay()
}

/// The single-member set.
pub struct Just<T: Clone>(pub T);

impl<T: Copy> Strategy for Just<T> {
    type Value = T;

    open spec fn feasible(&self) -> bool {
        true
    }

    open spec fn admits(&self, v: T) -> bool {
        v == self.0
    }

    fn value(&self) -> (r: T) {
        self.0
    }
}

/// The image of a strategy under a type conversion.  Drawing converts
/// through the standard conversion trait, outside what is modeled here;
/// the strategy only carries its source.
pub struct MapInto<S, T> {
    pub source: S,
    pub output: core::marker::PhantomData<T>,
}

/// The image of a strategy under a function.
pub struct MapStrategy<S, F> {
    pub source: S,
    pub fun: F,
}

impl<S: Strategy, T, F: Fn(S::Value) -> T> Strategy for MapStrategy<S, F> {
    type Value = T;

    open spec fn feasible(&self) -> bool {
        &&& self.source.feasible()
        &&& forall|v: S::Value|
            #[trigger] self.source.admits(v) ==> call_requires(self.fun, (v,))
    }

    open spec fn admits(&self, r: T) -> bool {
        exists|v: S::Value|
            #[trigger] self.source.admits(v) && call_ensures(self.fun, (v,), r)
    }

    fn value(&self) -> (r: T) {
        let v = self.source.value();
        let ghost gv = v;
        let r = (self.fun)(v);
        proof {
            assert(self.source.admits(gv) && call_ensures(self.fun, (gv,), r));
        }
        r
    }
}

/// A strategy of strategies, drawn from twice.
pub struct Flatten<S> {
    pub source: S,
}

impl<S: Strategy> Strategy for Flatten<S> where S::Value: Strategy {
    type Value = <S::Value as Strategy>::Value;

    open spec fn feasible(&self) -> bool {
        &&& self.source.feasible()
        &&& forall|m: S::Value| #[trigger] self.source.admits(m) ==> m.feasible()
    }

    open spec fn admits(&self, r: <S::Value as Strategy>::Value) -> bool {
        exists|m: S::Value| #[trigger] self.source.admits(m) && m.admits(r)
    }

    fn value(&self) -> (r: <S::Value as Strategy>::Value) {
        let m = self.source.value();
        let r = m.value();
        proof {
            assert(self.source.admits(m) && m.admits(r));
        }
        r
    }
}

/// Same drawing as `Flatten`, under the independent name.
pub struct IndFlatten<S> {
    pub source: S,
}

impl<S: Strategy> Strategy for IndFlatten<S> where S::Value: Strategy {
    type Value = <S::Value as Strategy>::Value;

    open spec fn feasible(&self) -> bool {
        &&& self.source.feasible()
        &&& forall|m: S::Value| #[trigger] self.source.admits(m) ==> m.feasible()
    }

    open spec fn admits(&self, r: <S::Value as Strategy>::Value) -> bool {
        exists|m: S::Value| #[trigger] self.source.admits(m) && m.admits(r)
    }

    fn value(&self) -> (r: <S::Value as Strategy>::Value) {
        let m = self.source.value();
        let r = m.value();
        proof {
            assert(self.source.admits(m) && m.admits(r));
        }
        r
    }
}

/// A pair: a drawn value together with a draw from the strategy it
/// selects.
pub struct IndFlattenMap<S, F> {
    pub source: S,
    pub fun: F,
}

impl<S: Strategy, T: Strategy, F: Fn(S::Value) -> T> Strategy for IndFlattenMap<S, F> where
    S::Value: Copy,
 {
    type Value = (S::Value, T::Value);

    open spec fn feasible(&self) -> bool {
        &&& self.source.feasible()
        &&& forall|v: S::Value|
            #[trigger] self.source.admits(v) ==> call_requires(self.fun, (v,))
        &&& forall|v: S::Value, t: T|
            self.source.admits(v) && #[trigger] call_ensures(self.fun, (v,), t)
                ==> t.feasible()
    }

    open spec fn admits(&self, r: (S::Value, T::Value)) -> bool {
        &&& self.source.admits(r.0)
        &&& exists|t: T| #[trigger] call_ensures(self.fun, (r.0,), t) && t.admits(r.1)
    }

    fn value(&self) -> (r: (S::Value, T::Value)) {
        let s = self.source.value();
        let t = (self.fun)(s);
        let r = t.value();
        proof {
            assert(call_ensures(self.fun, (s,), t) && t.admits(r));
        }
        (s, r)
    }
}

/// The subset of a strategy satisfying a predicate.  The predicate binds
/// a symbolic backend; run concretely the draw is returned unfiltered,
/// exactly as an assumption behaves.
pub struct Filter<S, F> {
    pub source: S,
    pub fun: F,
}

impl<S: Strategy, F: Fn(&S::Value) -> bool> Strategy for Filter<S, F> {
    type Value = S::Value;

    open spec fn feasible(&self) -> bool {
        self.source.feasible()
    }

    open spec fn admits(&self, v: S::Value) -> bool {
        self.source.admits(v)
    }

    fn value(&self) -> (r: S::Value) {
        self.source.value()
    }
}

/// The image of a strategy under a partial function; a draw whose image
/// is absent would reject the path, so feasibility demands the function
/// be total on the source's set.
pub struct FilterMap<S, F> {
    pub source: S,
    pub fun: F,
}

impl<S: Strategy, T, F: Fn(S::Value) -> Option<T>> Strategy for FilterMap<S, F> {
    type Value = T;

    open spec fn feasible(&self) -> bool {
        &&& self.source.feasible()
        &&& forall|v: S::Value|
            #[trigger] self.source.admits(v) ==> call_requires(self.fun, (v,))
        &&& forall|v: S::Value, o: Option<T>|
            self.source.admits(v) && #[trigger] call_ensures(self.fun, (v,), o) ==> o is Some
    }

    open spec fn admits(&self, r: T) -> bool {
        exists|v: S::Value|
            #[trigger] self.source.admits(v) && call_ensures(self.fun, (v,), Some(r))
    }

    fn value(&self) -> (r: T) {
        let v = self.source.value();
        let ghost gv = v;
        let o = (self.fun)(v);
        match o {
            Some(r) => {
                proof {
                    assert(self.source.admits(gv) && call_ensures(self.fun, (gv,), Some(r)));
                }
                r
            },
            None => vstd::pervasive::unreached(),
        }
    }
}

/// Either of two sets of the same shape.
pub struct Union<S> {
    pub x: S,
    pub y: S,
}

impl<S: Strategy> Strategy for Union<S> {
    type Value = S::Value;

    open spec fn feasible(&self) -> bool {
        self.x.feasible() && self.y.feasible()
    }

    open spec fn admits(&self, v: S::Value) -> bool {
        self.x.admits(v) || self.y.admits(v)
    }

    fn value(&self) -> (r: S::Value) {
        if <bool as AbstractValue>::abstract_value() {
            self.x.value()
        } else {
            self.y.value()
        }
    }
}

} // verus!
