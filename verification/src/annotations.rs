//! The annotation functions an instrumented program calls while it runs.
//!
//! Under a symbolic backend these mark assumptions and checks for the
//! solver; run concretely they have the exact behavior stated here.

use vstd::prelude::*;

use crate::traits::AbstractValue;
use crate::traits::VerifierNonDet;
use crate::utils::from_latin1;

verus! {

/// Declare that a path condition holds.  A symbolic backend prunes the
/// paths that violate it; run concretely the declaration does nothing.
pub fn presume(_cond: bool) {
}

/// Is this execution a replay of a recorded counterexample?  Used only
/// to decide whether to print concrete values; never under this
/// library's concrete semantics.
pub fn is_replay() -> (r: bool)
    ensures
        !r,
{
    false
}

/// Check a condition.  The instrumented runtime reports a verification
/// failure and aborts on a false condition, so callers must establish it.
pub fn verify(cond: bool)
    requires
        cond,
{
}

/// A vector of `n` arbitrary bytes; run concretely, `n` zero bytes.
pub fn verifier_nondet_bytes(n: usize) -> (r: Vec<u8>)
    ensures
        r@.len() == n,
        forall|i: int| 0 <= i < n ==> r@[i] == 0u8,
{
    let mut v: Vec<u8> = Vec::new();
    let mut i: usize = 0;
    while i < n
        invariant
            0 <= i <= n,
            v@.len() == i,
            forall|j: int| 0 <= j < i ==> v@[j] == 0u8,
        decreases n - i,
    {
        v.push(0u8.verifier_nondet());
        i += 1;
    }
    v
}

/// An ASCII string of `n` arbitrary characters; run concretely, `n` NUL
/// characters (every byte pattern decodes, so the length is exact).
pub fn verifier_nondet_ascii_string(n: usize) -> (r: String)
    ensures
        r@.len() == n,
        forall|i: int| 0 <= i < n ==> r@[i] == 0u8 as char,
{
    let bytes = verifier_nondet_bytes(n);
    from_latin1(bytes.as_slice())
}

/// An arbitrary value of type `T`; run concretely, the type's
/// designated witness.
pub fn abstract_value<T: AbstractValue>() -> (r: T)
    ensures
        r == T::abstract_default(),
{
    T::abstract_value()
}

/// One concrete solution for `x` under the constraints in force.  Run
/// concretely a value is its own solution.
pub fn concretize<T: VerifierNonDet + Copy>(x: T) -> (r: T)
    ensures
        r == x,
{
    x
}

/// One of up to `samples` concrete solutions for `x`.  Run concretely a
/// value is its own only solution.
pub fn sample<T: VerifierNonDet + Copy>(samples: usize, x: T) -> (r: T)
    requires
        samples >= 1,
    ensures
        r == x,
{
    x
}

} // verus!
