//! The strategy over `bool`.

use vstd::prelude::*;

use crate::strategy::{Arbitrary, Strategy};
use crate::traits::AbstractValue;

verus! {

/// Every boolean.
pub struct Any(pub ());

impl Strategy for Any {
    type Value = bool;

    open spec fn feasible(&self) -> bool {
        true
    }

    open spec fn admits(&self, v: bool) -> bool {
        true
    }

    fn value(&self) -> (r: bool) {
        let c: u8 = AbstractValue::abstract_value();
        crate::annotations::presume(c == 0 || c == 1);
        c == 1
    }
}

impl Arbitrary for bool {
    type Strategy = Any;

    fn arbitrary() -> (r: Any) {
        Any(())
    }
}

} // verus!
