//! The no-symbolic-execution fallback backend: the project's own test
//! harness is run, and its exit status plus captured stderr decide the
//! verdict.

use vstd::prelude::*;

use crate::status::Status;
use crate::text::{contains_seq, contains_str};

verus! {

/// This backend needs no external tool, so it is always available.
pub fn check_install() -> (r: bool)
    ensures
        r,
{
    true
}

/// The verdict for one harness run, given whether the run exited cleanly
/// and its captured stderr lines.
pub open spec fn spec_outcome(success: bool, lines: Seq<Seq<char>>) -> Status {
    if success {
        Status::Verified
    } else if exists|i: int| 0 <= i < lines.len() && contains_seq(#[trigger] lines[i], "with overflow"@) {
        Status::Overflow
    } else {
        Status::Error
    }
}

/// A clean exit is `Verified`; a failing run is `Overflow` when any
/// stderr line reports an arithmetic overflow, else `Error`.
pub fn classify_outcome(success: bool, lines: &Vec<String>) -> (r: Status)
    ensures
        r == spec_outcome(success, lines.deep_view()),
{
    if success {
        return Status::Verified;
    }
    let ghost ls = lines.deep_view();
    let mut i: usize = 0;
    while i < lines.len()
        invariant
            !success,
            ls == lines.deep_view(),
            ls.len() == lines.len(),
            0 <= i <= lines.len(),
            forall|j: int| 0 <= j < i ==> !contains_seq(#[trigger] ls[j], "with overflow"@),
        decreases lines.len() - i,
    {
        let l: &String = &lines[i];
        proof {
            assert(ls[i as int] == l@);
        }
        if contains_str(l.as_str(), "with overflow") {
            proof {
                assert(contains_seq(ls[i as int], "with overflow"@));
                assert(exists|j: int|
                    0 <= j < ls.len() && contains_seq(#[trigger] ls[j], "with overflow"@));
            }
            return Status::Overflow;
        }
        i += 1;
    }
    Status::Error
}

} // verus!
