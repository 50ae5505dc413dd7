//! Strategies over containers: options, results, vectors, deques, and
//! the ordered collections.

use vstd::prelude::*;

use std::collections::BTreeMap;
use std::collections::BTreeSet;
use std::collections::VecDeque;

use crate::strategy::Strategy;
use crate::strategy::bools;

verus! {

/// `None`, or `Some` of a draw from the inner strategy.
pub struct OptionStrategy<S> {
    pub s: S,
}

impl<S: Strategy> Strategy for OptionStrategy<S> {
    type Value = Option<S::Value>;

    open spec fn feasible(&self) -> bool {
        self.s.feasible()
    }

    open spec fn admits(&self, v: Option<S::Value>) -> bool {
        match v {
            Some(x) => self.s.admits(x),
            None => true,
        }
    }

    fn value(&self) -> (r: Option<S::Value>) {
        let b = bools::Any(());
        if b.value() {
            Some(self.s.value())
        } else {
            None
        }
    }
}

/// Optional values drawn from `s`.
pub fn of<S: Strategy>(s: S) -> (r: OptionStrategy<S>)
    ensures
        r == (OptionStrategy { s }),
{
    OptionStrategy { s }
}

/// `Ok` of a draw from one strategy, or `Err` of a draw from another.
pub struct ResultStrategy<A, B> {
    pub a: A,
    pub b: B,
}

impl<A: Strategy, B: Strategy> Strategy for ResultStrategy<A, B> {
    type Value = Result<A::Value, B::Value>;

    open spec fn feasible(&self) -> bool {
        self.a.feasible() && self.b.feasible()
    }

    open spec fn admits(&self, v: Result<A::Value, B::Value>) -> bool {
        match v {
            Ok(x) => self.a.admits(x),
            Err(e) => self.b.admits(e),
        }
    }

    fn value(&self) -> (r: Result<A::Value, B::Value>) {
        let c = bools::Any(());
        if c.value() {
            Ok(self.a.value())
        } else {
            Err(self.b.value())
        }
    }
}

/// Results drawn from an `Ok` strategy and an `Err` strategy.
pub fn maybe_ok<A: Strategy, B: Strategy>(a: A, b: B) -> (r: ResultStrategy<A, B>)
    ensures
        r == (ResultStrategy { a, b }),
{
    ResultStrategy { a, b }
}

/// Results drawn from an `Ok` strategy and an `Err` strategy.
pub fn maybe_err<A: Strategy, B: Strategy>(a: A, b: B) -> (r: ResultStrategy<A, B>)
    ensures
        r == (ResultStrategy { a, b }),
{
    ResultStrategy { a, b }
}

/// A vector of exactly `size` draws from the element strategy.
pub struct VecStrategy<S: Strategy> {
    pub element: S,
    pub size: usize,
}

impl<S: Strategy> Strategy for VecStrategy<S> {
    type Value = Vec<S::Value>;

    open spec fn feasible(&self) -> bool {
        self.element.feasible()
    }

    open spec fn admits(&self, v: Vec<S::Value>) -> bool {
        v@.len() == self.size && forall|i: int|
            0 <= i < v@.len() ==> self.element.admits(#[trigger] v@[i])
    }

    fn value(&self) -> (r: Vec<S::Value>) {
        let n = self.size;
        let mut v: Vec<S::Value> = Vec::new();
        let mut i: usize = 0;
        while i < n
            invariant
                0 <= i <= n,
                v@.len() == i,
                self.feasible(),
                forall|j: int| 0 <= j < i ==> self.element.admits(#[trigger] v@[j]),
            decreases n - i,
        {
            v.push(self.element.value());
            i += 1;
        }
        v
    }
}

/// A strategy for vectors of `size` elements drawn from `element`.
pub fn vec<S: Strategy>(element: S, size: usize) -> (r: VecStrategy<S>)
    ensures
        r == (VecStrategy { element, size }),
{
    VecStrategy { element, size }
}

/// A double-ended queue of exactly `size` draws, pushed at the front.
pub struct VecDequeStrategy<S: Strategy> {
    pub element: S,
    pub size: usize,
}

impl<S: Strategy> Strategy for VecDequeStrategy<S> {
    type Value = VecDeque<S::Value>;

    open spec fn feasible(&self) -> bool {
        self.element.feasible()
    }

    open spec fn admits(&self, v: VecDeque<S::Value>) -> bool {
        v@.len() == self.size && forall|i: int|
            0 <= i < v@.len() ==> self.element.admits(#[trigger] v@[i])
    }

    fn value(&self) -> (r: VecDeque<S::Value>) {
        let n = self.size;
        let mut v: VecDeque<S::Value> = VecDeque::with_capacity(n);
        let mut i: usize = 0;
        while i < n
            invariant
                0 <= i <= n,
                v@.len() == i,
                self.feasible(),
                forall|j: int| 0 <= j < i ==> self.element.admits(#[trigger] v@[j]),
            decreases n - i,
        {
            v.push_front(self.element.value());
            i += 1;
        }
        v
    }
}

/// A strategy for deques of `size` elements drawn from `element`.
pub fn vec_deque<S: Strategy>(element: S, size: usize) -> (r: VecDequeStrategy<S>)
    ensures
        r == (VecDequeStrategy { element, size }),
{
    VecDequeStrategy { element, size }
}

/// A linked list of `size` draws.  Drawing the list itself is left to
/// the instrumented harness: the list type carries no model here.
pub struct LinkedListStrategy<S: Strategy> {
    pub element: S,
    pub size: usize,
}

/// A strategy for linked lists of `size` elements drawn from `element`.
pub fn linked_list<S: Strategy>(element: S, size: usize) -> (r: LinkedListStrategy<S>)
    ensures
        r == (LinkedListStrategy { element, size }),
{
    LinkedListStrategy { element, size }
}

/// An ordered map of up to `size` drawn entries.  What the filled map
/// holds is visible only under the standard key-comparison model, which
/// an arbitrary drawn key type need not obey; the draw is therefore
/// specified as total but its contents are not modeled.
pub struct BTreeMapStrategy<K: Strategy, V: Strategy> {
    pub keys: K,
    pub value: V,
    pub size: usize,
}

impl<K: Strategy, V: Strategy> Strategy for BTreeMapStrategy<K, V> where K::Value: Ord {
    type Value = BTreeMap<K::Value, V::Value>;

    open spec fn feasible(&self) -> bool {
        self.keys.feasible() && self.value.feasible()
    }

    open spec fn admits(&self, v: BTreeMap<K::Value, V::Value>) -> bool {
        true
    }

    fn value(&self) -> (r: BTreeMap<K::Value, V::Value>) {
        let n = self.size;
        let mut r: BTreeMap<K::Value, V::Value> = BTreeMap::new();
        let mut i: usize = 0;
        while i < n
            invariant
                self.feasible(),
            decreases n - i,
        {
            r.insert(self.keys.value(), self.value.value());
            i += 1;
        }
        r
    }
}

/// A strategy for ordered maps of up to `size` entries.
pub fn btree_map<K: Strategy, V: Strategy>(keys: K, value: V, size: usize) -> (r: BTreeMapStrategy<
    K,
    V,
>)
    ensures
        r == (BTreeMapStrategy { keys, value, size }),
{
    BTreeMapStrategy { keys, value, size }
}

/// An ordered set of up to `size` drawn elements.  As with the ordered
/// map, the filled set's contents are not modeled for arbitrary element
/// types.
pub struct BTreeSetStrategy<S: Strategy> {
    pub element: S,
    pub size: usize,
}

impl<S: Strategy> Strategy for BTreeSetStrategy<S> where S::Value: Ord {
    type Value = BTreeSet<S::Value>;

    open spec fn feasible(&self) -> bool {
        self.element.feasible()
    }

    open spec fn admits(&self, v: BTreeSet<S::Value>) -> bool {
        true
    }

    fn value(&self) -> (r: BTreeSet<S::Value>) {
        let n = self.size;
        let mut r: BTreeSet<S::Value> = BTreeSet::new();
        let mut i: usize = 0;
        while i < n
            invariant
                self.feasible(),
            decreases n - i,
        {
            r.insert(self.element.value());
            i += 1;
        }
        r
    }
}

/// A strategy for ordered sets of up to `size` elements.
pub fn btree_set<S: Strategy>(element: S, size: usize) -> (r: BTreeSetStrategy<S>)
    ensures
        r == (BTreeSetStrategy { element, size }),
{
    BTreeSetStrategy { element, size }
}

/// A priority heap of `size` draws.  Drawing the heap itself is left to
/// the instrumented harness: the heap type carries no model here.
pub struct BinaryHeapStrategy<S: Strategy> {
    pub element: S,
    pub size: usize,
}

/// A strategy for priority heaps of `size` elements drawn from `element`.
pub fn binary_heap<S: Strategy>(element: S, size: usize) -> (r: BinaryHeapStrategy<S>)
    ensures
        r == (BinaryHeapStrategy { element, size }),
{
    BinaryHeapStrategy { element, size }
}

} // verus!
