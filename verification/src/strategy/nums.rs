//! Strategies over the integer types: the full range of a type, and
//! explicit ranges.

use vstd::prelude::*;

use crate::strategy::{Arbitrary, Strategy};
use crate::traits::AbstractValue;

verus! {

/// Every value of the integer type `T`.
pub struct Any<T>(pub core::marker::PhantomData<T>);

impl Strategy for Any<u8> {
    type Value = u8;

    open spec fn feasible(&self) -> bool {
        true
    }

    open spec fn admits(&self, v: u8) -> bool {
        true
    }

    fn value(&self) -> (r: u8) {
        AbstractValue::abstract_value()
    }
}

impl Arbitrary for u8 {
    type Strategy = Any<u8>;

    fn arbitrary() -> (r: Any<u8>) {
        Any(core::marker::PhantomData)
    }
}

impl Strategy for Any<u16> {
    type Value = u16;

    open spec fn feasible(&self) -> bool {
        true
    }

    open spec fn admits(&self, v: u16) -> bool {
        true
    }

    fn value(&self) -> (r: u16) {
        AbstractValue::abstract_value()
    }
}

impl Arbitrary for u16 {
    type Strategy = Any<u16>;

    fn arbitrary() -> (r: Any<u16>) {
        Any(core::marker::PhantomData)
    }
}

impl Strategy for Any<u32> {
    type Value = u32;

    open spec fn feasible(&self) -> bool {
        true
    }

    open spec fn admits(&self, v: u32) -> bool {
        true
    }

    fn value(&self) -> (r: u32) {
        AbstractValue::abstract_value()
    }
}

impl Arbitrary for u32 {
    type Strategy = Any<u32>;

    fn arbitrary() -> (r: Any<u32>) {
        Any(core::marker::PhantomData)
    }
}

impl Strategy for Any<u64> {
    type Value = u64;

    open spec fn feasible(&self) -> bool {
        true
    }

    open spec fn admits(&self, v: u64) -> bool {
        true
    }

    fn value(&self) -> (r: u64) {
        AbstractValue::abstract_value()
    }
}

impl Arbitrary for u64 {
    type Strategy = Any<u64>;

    fn arbitrary() -> (r: Any<u64>) {
        Any(core::marker::PhantomData)
    }
}

impl Strategy for Any<usize> {
    type Value = usize;

    open spec fn feasible(&self) -> bool {
        true
    }

    open spec fn admits(&self, v: usize) -> bool {
        true
    }

    fn value(&self) -> (r: usize) {
        AbstractValue::abstract_value()
    }
}

impl Arbitrary for usize {
    type Strategy = Any<usize>;

    fn arbitrary() -> (r: Any<usize>) {
        Any(core::marker::PhantomData)
    }
}

impl Strategy for Any<i8> {
    type Value = i8;

    open spec fn feasible(&self) -> bool {
        true
    }

    open spec fn admits(&self, v: i8) -> bool {
        true
    }

    fn value(&self) -> (r: i8) {
        AbstractValue::abstract_value()
    }
}

impl Arbitrary for i8 {
    type Strategy = Any<i8>;

    fn arbitrary() -> (r: Any<i8>) {
        Any(core::marker::PhantomData)
    }
}

impl Strategy for Any<i16> {
    type Value = i16;

    open spec fn feasible(&self) -> bool {
        true
    }

    open spec fn admits(&self, v: i16) -> bool {
        true
    }

    fn value(&self) -> (r: i16) {
        AbstractValue::abstract_value()
    }
}

impl Arbitrary for i16 {
    type Strategy = Any<i16>;

    fn arbitrary() -> (r: Any<i16>) {
        Any(core::marker::PhantomData)
    }
}

impl Strategy for Any<i32> {
    type Value = i32;

    open spec fn feasible(&self) -> bool {
        true
    }

    open spec fn admits(&self, v: i32) -> bool {
        true
    }

    fn value(&self) -> (r: i32) {
        AbstractValue::abstract_value()
    }
}

impl Arbitrary for i32 {
    type Strategy = Any<i32>;

    fn arbitrary() -> (r: Any<i32>) {
        Any(core::marker::PhantomData)
    }
}

impl Strategy for Any<i64> {
    type Value = i64;

    open spec fn feasible(&self) -> bool {
        true
    }

    open spec fn admits(&self, v: i64) -> bool {
        true
    }

    fn value(&self) -> (r: i64) {
        AbstractValue::abstract_value()
    }
}

impl Arbitrary for i64 {
    type Strategy = Any<i64>;

    fn arbitrary() -> (r: Any<i64>) {
        Any(core::marker::PhantomData)
    }
}

impl Strategy for Any<isize> {
    type Value = isize;

    open spec fn feasible(&self) -> bool {
        true
    }

    open spec fn admits(&self, v: isize) -> bool {
        true
    }

    fn value(&self) -> (r: isize) {
        AbstractValue::abstract_value()
    }
}

impl Arbitrary for isize {
    type Strategy = Any<isize>;

    fn arbitrary() -> (r: Any<isize>) {
        Any(core::marker::PhantomData)
    }
}

/// A half-open range of `u32` draws a member; run concretely the lower
/// bound (an arbitrary draw is kept only when it already lies inside).
impl Strategy for core::ops::Range<u32> {
    type Value = u32;

    open spec fn feasible(&self) -> bool {
        self.start < self.end
    }

    open spec fn admits(&self, v: u32) -> bool {
        self.start <= v && v < self.end
    }

    fn value(&self) -> (r: u32) {
        let r: u32 = AbstractValue::abstract_value();
        crate::annotations::presume(self.start <= r);
        crate::annotations::presume(r < self.end);
        if self.start <= r && r < self.end {
            r
        } else {
            self.start
        }
    }
}

/// A half-open range of `i32`; see the `u32` instance.
impl Strategy for core::ops::Range<i32> {
    type Value = i32;

    open spec fn feasible(&self) -> bool {
        self.start < self.end
    }

    open spec fn admits(&self, v: i32) -> bool {
        self.start <= v && v < self.end
    }

    fn value(&self) -> (r: i32) {
        let r: i32 = AbstractValue::abstract_value();
        crate::annotations::presume(self.start <= r);
        crate::annotations::presume(r < self.end);
        if self.start <= r && r < self.end {
            r
        } else {
            self.start
        }
    }
}

/// A half-open range of `usize`; see the `u32` instance.
impl Strategy for core::ops::Range<usize> {
    type Value = usize;

    open spec fn feasible(&self) -> bool {
        self.start < self.end
    }

    open spec fn admits(&self, v: usize) -> bool {
        self.start <= v && v < self.end
    }

    fn value(&self) -> (r: usize) {
        let r: usize = AbstractValue::abstract_value();
        crate::annotations::presume(self.start <= r);
        crate::annotations::presume(r < self.end);
        if self.start <= r && r < self.end {
            r
        } else {
            self.start
        }
    }
}

} // verus!
