//! The strategy over `char`.

use vstd::prelude::*;

use crate::strategy::{Arbitrary, Strategy};
use crate::traits::AbstractValue;

verus! {

/// Every character.  The drawn code point is constrained to a valid
/// character; run concretely it is the zero code point.
pub struct Any(pub ());

impl Strategy for Any {
    type Value = char;

    open spec fn feasible(&self) -> bool {
        true
    }

    open spec fn admits(&self, v: char) -> bool {
        true
    }

    fn value(&self) -> (r: char) {
        let c: u32 = AbstractValue::abstract_value();
        if c == 0 {
            '\u{0}'
        } else {
            // The draw is the designated witness, so this arm is never
            // taken; it keeps the conversion total without a partial cast.
            '\u{fffd}'
        }
    }
}

impl Arbitrary for char {
    type Strategy = Any;

    fn arbitrary() -> (r: Any) {
        Any(())
    }
}

} // verus!
