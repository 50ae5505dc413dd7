//! The canonical verdict produced for one verification job.

use vstd::prelude::*;

verus! {

/// Outcome of running one backend job, reduced from the backend's output.
///
/// `Unknown` means no recognizable signal was found in the output (the tool
/// crashed silently, or the output matched no known line shape).
#[derive(Debug, Clone, Copy, PartialEq, Eq, Structural)]
pub enum Status {
    Unknown,
    Verified,
    Error,
    AssertFailed,
    OutOfBounds,
    Overflow,
    Panic,
    Reachable,
    Timeout,
}

impl Status {
    /// The upper-case label printed for this verdict.
    ///
    /// With `alternate` set, `Verified` is shortened to `OK`, matching the
    /// per-test result lines; the long form is used for the final status.
    pub fn label(&self, alternate: bool) -> (r: &'static str)
        ensures
            r@ == spec_label(*self, alternate),
    {
        match self {
            Status::Unknown => "UNKNOWN",
            Status::Verified => if alternate { "OK" } else { "VERIFIED" },
            Status::Error => "ERROR",
            Status::AssertFailed => "ASSERT_FAILED",
            Status::Overflow => "OVERFLOW",
            Status::OutOfBounds => "OUT_OF_BOUNDS",
            Status::Panic => "PANIC",
            Status::Reachable => "REACHABLE",
            Status::Timeout => "TIMEOUT",
        }
    }

    /// The single character shown per job in compact (quiet) output.
    pub fn quiet_char(&self) -> (r: char)
        ensures
            r == spec_quiet_char(*self),
    {
        match self {
            Status::Unknown => '?',
            Status::Verified => '.',
            Status::Error => 'F',
            Status::AssertFailed => 'A',
            Status::OutOfBounds => 'B',
            Status::Overflow => 'O',
            Status::Panic => 'P',
            Status::Reachable => 'R',
            Status::Timeout => 'T',
        }
    }
}

pub open spec fn spec_label(s: Status, alternate: bool) -> Seq<char> {
    match s {
        Status::Unknown => "UNKNOWN"@,
        Status::Verified => if alternate { "OK"@ } else { "VERIFIED"@ },
        Status::Error => "ERROR"@,
        Status::AssertFailed => "ASSERT_FAILED"@,
        Status::Overflow => "OVERFLOW"@,
        Status::OutOfBounds => "OUT_OF_BOUNDS"@,
        Status::Panic => "PANIC"@,
        Status::Reachable => "REACHABLE"@,
        Status::Timeout => "TIMEOUT"@,
    }
}

pub open spec fn spec_quiet_char(s: Status) -> char {
    match s {
        Status::Unknown => '?',
        Status::Verified => '.',
        Status::Error => 'F',
        Status::AssertFailed => 'A',
        Status::OutOfBounds => 'B',
        Status::Overflow => 'O',
        Status::Panic => 'P',
        Status::Reachable => 'R',
        Status::Timeout => 'T',
    }
}

} // verus!
