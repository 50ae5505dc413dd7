//! The three styles of creating an "arbitrary" value that instrumented
//! programs use: `verifier_nondet(seed)`, `abstract_value()`, and
//! `symbolic(description)`.
//!
//! Under a symbolic backend these introduce an unconstrained value; run
//! concretely — the library's own semantics, used when replaying and in
//! the test-harness fallback — each yields a fixed witness, stated
//! exactly in its contract.

use vstd::prelude::*;

verus! {

/// An arbitrary value with the same type as the seed; run concretely,
/// the seed itself.
pub trait VerifierNonDet: Sized {
    fn verifier_nondet(self) -> (r: Self)
        ensures
            r == self,
    ;
}

/// An arbitrary value of a type with a designated concrete witness.
pub trait AbstractValue: Sized {
    /// The witness produced when running concretely.
    spec fn abstract_default() -> Self;

    /// An arbitrary value of type `Self`.
    fn abstract_value() -> (r: Self)
        ensures
            r == Self::abstract_default(),
    ;

    /// An arbitrary value satisfying `f` under a symbolic backend; the
    /// predicate is an assumption there, not a concrete filter.
    fn abstract_where<F: FnOnce(&Self) -> bool>(f: F) -> (r: Self)
        ensures
            r == Self::abstract_default(),
    {
        Self::abstract_value()
    }
}

/// An arbitrary value carrying a description for counterexample reports.
pub trait Symbolic: Sized {
    /// The witness produced when running concretely.
    spec fn symbolic_default() -> Self;

    /// An arbitrary value of type `Self`; the description does not
    /// influence the result.
    fn symbolic(desc: &'static str) -> (r: Self)
        ensures
            r == Self::symbolic_default(),
    ;

    /// An arbitrary value satisfying `f` under a symbolic backend; the
    /// predicate is an assumption there, not a concrete filter.
    fn symbolic_where<F: FnOnce(&Self) -> bool>(desc: &'static str, f: F) -> (r: Self)
        ensures
            r == Self::symbolic_default(),
    {
        Self::symbolic(desc)
    }
}

impl VerifierNonDet for bool {
    fn verifier_nondet(self) -> (r: bool) {
        self
    }
}

impl AbstractValue for bool {
    open spec fn abstract_default() -> bool {
        false
    }

    fn abstract_value() -> (r: bool) {
        false.verifier_nondet()
    }
}

impl Symbolic for bool {
    open spec fn symbolic_default() -> bool {
        false
    }

    fn symbolic(desc: &'static str) -> (r: bool) {
        false.verifier_nondet()
    }
}

impl VerifierNonDet for u8 {
    fn verifier_nondet(self) -> (r: u8) {
        self
    }
}

impl AbstractValue for u8 {
    open spec fn abstract_default() -> u8 {
        0
    }

    fn abstract_value() -> (r: u8) {
        0u8.verifier_nondet()
    }
}

impl Symbolic for u8 {
    open spec fn symbolic_default() -> u8 {
        0
    }

    fn symbolic(desc: &'static str) -> (r: u8) {
        0u8.verifier_nondet()
    }
}

impl VerifierNonDet for u16 {
    fn verifier_nondet(self) -> (r: u16) {
        self
    }
}

impl AbstractValue for u16 {
    open spec fn abstract_default() -> u16 {
        0
    }

    fn abstract_value() -> (r: u16) {
        0u16.verifier_nondet()
    }
}

impl Symbolic for u16 {
    open spec fn symbolic_default() -> u16 {
        0
    }

    fn symbolic(desc: &'static str) -> (r: u16) {
        0u16.verifier_nondet()
    }
}

impl VerifierNonDet for u32 {
    fn verifier_nondet(self) -> (r: u32) {
        self
    }
}

impl AbstractValue for u32 {
    open spec fn abstract_default() -> u32 {
        0
    }

    fn abstract_value() -> (r: u32) {
        0u32.verifier_nondet()
    }
}

impl Symbolic for u32 {
    open spec fn symbolic_default() -> u32 {
        0
    }

    fn symbolic(desc: &'static str) -> (r: u32) {
        0u32.verifier_nondet()
    }
}

impl VerifierNonDet for u64 {
    fn verifier_nondet(self) -> (r: u64) {
        self
    }
}

impl AbstractValue for u64 {
    open spec fn abstract_default() -> u64 {
        0
    }

    fn abstract_value() -> (r: u64) {
        0u64.verifier_nondet()
    }
}

impl Symbolic for u64 {
    open spec fn symbolic_default() -> u64 {
        0
    }

    fn symbolic(desc: &'static str) -> (r: u64) {
        0u64.verifier_nondet()
    }
}

impl VerifierNonDet for u128 {
    fn verifier_nondet(self) -> (r: u128) {
        self
    }
}

impl AbstractValue for u128 {
    open spec fn abstract_default() -> u128 {
        0
    }

    fn abstract_value() -> (r: u128) {
        0u128.verifier_nondet()
    }
}

impl Symbolic for u128 {
    open spec fn symbolic_default() -> u128 {
        0
    }

    fn symbolic(desc: &'static str) -> (r: u128) {
        0u128.verifier_nondet()
    }
}

impl VerifierNonDet for usize {
    fn verifier_nondet(self) -> (r: usize) {
        self
    }
}

impl AbstractValue for usize {
    open spec fn abstract_default() -> usize {
        0
    }

    fn abstract_value() -> (r: usize) {
        0usize.verifier_nondet()
    }
}

impl Symbolic for usize {
    open spec fn symbolic_default() -> usize {
        0
    }

    fn symbolic(desc: &'static str) -> (r: usize) {
        0usize.verifier_nondet()
    }
}

impl VerifierNonDet for i8 {
    fn verifier_nondet(self) -> (r: i8) {
        self
    }
}

impl AbstractValue for i8 {
    open spec fn abstract_default() -> i8 {
        0
    }

    fn abstract_value() -> (r: i8) {
        0i8.verifier_nondet()
    }
}

impl Symbolic for i8 {
    open spec fn symbolic_default() -> i8 {
        0
    }

    fn symbolic(desc: &'static str) -> (r: i8) {
        0i8.verifier_nondet()
    }
}

impl VerifierNonDet for i16 {
    fn verifier_nondet(self) -> (r: i16) {
        self
    }
}

impl AbstractValue for i16 {
    open spec fn abstract_default() -> i16 {
        0
    }

    fn abstract_value() -> (r: i16) {
        0i16.verifier_nondet()
    }
}

impl Symbolic for i16 {
    open spec fn symbolic_default() -> i16 {
        0
    }

    fn symbolic(desc: &'static str) -> (r: i16) {
        0i16.verifier_nondet()
    }
}

impl VerifierNonDet for i32 {
    fn verifier_nondet(self) -> (r: i32) {
        self
    }
}

impl AbstractValue for i32 {
    open spec fn abstract_default() -> i32 {
        0
    }

    fn abstract_value() -> (r: i32) {
        0i32.verifier_nondet()
    }
}

impl Symbolic for i32 {
    open spec fn symbolic_default() -> i32 {
        0
    }

    fn symbolic(desc: &'static str) -> (r: i32) {
        0i32.verifier_nondet()
    }
}

impl VerifierNonDet for i64 {
    fn verifier_nondet(self) -> (r: i64) {
        self
    }
}

impl AbstractValue for i64 {
    open spec fn abstract_default() -> i64 {
        0
    }

    fn abstract_value() -> (r: i64) {
        0i64.verifier_nondet()
    }
}

impl Symbolic for i64 {
    open spec fn symbolic_default() -> i64 {
        0
    }

    fn symbolic(desc: &'static str) -> (r: i64) {
        0i64.verifier_nondet()
    }
}

impl VerifierNonDet for i128 {
    fn verifier_nondet(self) -> (r: i128) {
        self
    }
}

impl AbstractValue for i128 {
    open spec fn abstract_default() -> i128 {
        0
    }

    fn abstract_value() -> (r: i128) {
        0i128.verifier_nondet()
    }
}

impl Symbolic for i128 {
    open spec fn symbolic_default() -> i128 {
        0
    }

    fn symbolic(desc: &'static str) -> (r: i128) {
        0i128.verifier_nondet()
    }
}

impl VerifierNonDet for isize {
    fn verifier_nondet(self) -> (r: isize) {
        self
    }
}

impl AbstractValue for isize {
    open spec fn abstract_default() -> isize {
        0
    }

    fn abstract_value() -> (r: isize) {
        0isize.verifier_nondet()
    }
}

impl Symbolic for isize {
    open spec fn symbolic_default() -> isize {
        0
    }

    fn symbolic(desc: &'static str) -> (r: isize) {
        0isize.verifier_nondet()
    }
}

} // verus!
