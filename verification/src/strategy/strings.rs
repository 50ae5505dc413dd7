//! Strategies over strings of a fixed length (a fixed length keeps the
//! symbolic backends' path counts manageable).

use vstd::prelude::*;

use crate::strategy::Strategy;

verus! {

/// Every string of the given character length.
pub struct Any(pub usize);

impl Strategy for Any {
    type Value = String;

    open spec fn feasible(&self) -> bool {
        true
    }

    open spec fn admits(&self, v: String) -> bool {
        v@.len() == self.0
    }

    fn value(&self) -> (r: String) {
        crate::annotations::verifier_nondet_ascii_string(self.0)
    }
}

/// Every ASCII string of the given length.
pub struct AnyAscii(pub usize);

impl Strategy for AnyAscii {
    type Value = String;

    open spec fn feasible(&self) -> bool {
        true
    }

    open spec fn admits(&self, v: String) -> bool {
        v@.len() == self.0 && forall|i: int| 0 <= i < v@.len() ==> (v@[i] as u32) < 128
    }

    fn value(&self) -> (r: String) {
        crate::annotations::verifier_nondet_ascii_string(self.0)
    }
}

/// A strategy for strings of `length` characters.
pub fn arbitrary(length: usize) -> (r: Any)
    ensures
        r == Any(length),
{
    Any(length)
}

/// A strategy for ASCII strings of `length` characters.
pub fn arbitrary_ascii(length: usize) -> (r: AnyAscii)
    ensures
        r == AnyAscii(length),
{
    AnyAscii(length)
}

} // verus!
