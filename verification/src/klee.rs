//! Verdict and importance classification for KLEE output.
//!
//! KLEE reports on stderr; the caller captures that stream, splits it into
//! lines, and hands the lines here.  The predicate table below is ordered:
//! for one line the first predicate that matches wins, and over the whole
//! output the first line with any signal decides the verdict.

use vstd::prelude::*;

use crate::classify::{first_signal, lemma_no_signal};
use crate::expect::{extract_expectation, is_expected_panic, spec_expectation, spec_is_expected_panic};
use crate::status::Status;
use crate::text::{contains_seq, contains_str, prefix_of, starts_with_str};

verus! {

/// The ordered predicate table for one line of KLEE output.
///
/// An expectation marker is never itself a verdict signal.  The expected-
/// panic predicate outranks the generic assertion, overflow and panic
/// predicates, so a panic that was declared expected counts as `Verified`.
/// A line KLEE prints when it cannot even set the job up (link failure,
/// missing symbol) yields `Unknown`: a setup problem, not a defect.
pub open spec fn line_verdict(l: Seq<char>, expect: Option<Seq<char>>) -> Option<Status> {
    if prefix_of("KLEE: HaltTimer invoked"@, l) {
        Some(Status::Timeout)
    } else if prefix_of("KLEE: halting execution, dumping remaining states"@, l) {
        Some(Status::Timeout)
    } else if prefix_of("KLEE: ERROR: Could not link"@, l) {
        Some(Status::Unknown)
    } else if prefix_of("KLEE: ERROR: Unable to load symbol"@, l) {
        Some(Status::Unknown)
    } else if prefix_of("KLEE: ERROR:"@, l) && contains_seq(l, "unreachable"@) {
        Some(Status::Reachable)
    } else if prefix_of("KLEE: ERROR:"@, l) && contains_seq(l, "overflow"@) {
        Some(Status::Overflow)
    } else if prefix_of("KLEE: ERROR:"@, l) && contains_seq(l, "out of bound"@) {
        Some(Status::OutOfBounds)
    } else if prefix_of("KLEE: ERROR:"@, l) {
        Some(Status::Error)
    } else if prefix_of("VERIFIER_EXPECT:"@, l) {
        None
    } else if spec_is_expected_panic(l, expect) {
        Some(Status::Verified)
    } else if contains_seq(l, "assertion failed"@) {
        Some(Status::AssertFailed)
    } else if contains_seq(l, "verification failed"@) {
        Some(Status::Error)
    } else if contains_seq(l, "index out of bounds"@) {
        Some(Status::OutOfBounds)
    } else if contains_seq(l, "with overflow"@) {
        Some(Status::Overflow)
    } else if contains_seq(l, "panicked at"@) {
        Some(Status::Panic)
    } else if contains_seq(l, "note: run with `RUST_BACKTRACE=1`"@) {
        Some(Status::Error)
    } else if contains_seq(l, "KLEE: done:"@) {
        if expect is None {
            Some(Status::Verified)
        } else {
            Some(Status::Error)
        }
    } else {
        None
    }
}

/// Exec mirror of `line_verdict`.
pub fn check_line(l: &str, expect: &Option<String>) -> (r: Option<Status>)
    ensures
        r == line_verdict(l@, expect.deep_view()),
{
    if starts_with_str(l, "KLEE: HaltTimer invoked") {
        Some(Status::Timeout)
    } else if starts_with_str(l, "KLEE: halting execution, dumping remaining states") {
        Some(Status::Timeout)
    } else if starts_with_str(l, "KLEE: ERROR: Could not link") {
        Some(Status::Unknown)
    } else if starts_with_str(l, "KLEE: ERROR: Unable to load symbol") {
        Some(Status::Unknown)
    } else if starts_with_str(l, "KLEE: ERROR:") && contains_str(l, "unreachable") {
        Some(Status::Reachable)
    } else if starts_with_str(l, "KLEE: ERROR:") && contains_str(l, "overflow") {
        Some(Status::Overflow)
    } else if starts_with_str(l, "KLEE: ERROR:") && contains_str(l, "out of bound") {
        Some(Status::OutOfBounds)
    } else if starts_with_str(l, "KLEE: ERROR:") {
        Some(Status::Error)
    } else if starts_with_str(l, "VERIFIER_EXPECT:") {
        None
    } else if is_expected_panic(l, expect) {
        Some(Status::Verified)
    } else if contains_str(l, "assertion failed") {
        Some(Status::AssertFailed)
    } else if contains_str(l, "verification failed") {
        Some(Status::Error)
    } else if contains_str(l, "index out of bounds") {
        Some(Status::OutOfBounds)
    } else if contains_str(l, "with overflow") {
        Some(Status::Overflow)
    } else if contains_str(l, "panicked at") {
        Some(Status::Panic)
    } else if contains_str(l, "note: run with `RUST_BACKTRACE=1`") {
        Some(Status::Error)
    } else if contains_str(l, "KLEE: done:") {
        if expect.is_none() {
            Some(Status::Verified)
        } else {
            Some(Status::Error)
        }
    } else {
        None
    }
}

/// Scan the lines in order under a fixed expectation; the first line with
/// a signal decides.  The second component reports the classification gap:
/// it is true exactly when no line matched and the verdict fell back to
/// `Unknown`, and the caller must then log a warning naming the job.
pub fn classify(lines: &Vec<String>, expect: &Option<String>) -> (r: (Status, bool))
    ensures
        ({
            let sig = first_signal(
                lines.deep_view(),
                |l: Seq<char>| line_verdict(l, expect.deep_view()),
            );
            &&& r.0 == (match sig {
                Some(v) => v,
                None => Status::Unknown,
            })
            &&& r.1 == (sig is None)
        }),
{
    let ghost ls = lines.deep_view();
    let ghost f = |l: Seq<char>| line_verdict(l, expect.deep_view());
    proof {
        assert(ls.skip(0) =~= ls);
    }
    let mut i: usize = 0;
    while i < lines.len()
        invariant
            ls == lines.deep_view(),
            ls.len() == lines.len(),
            0 <= i <= lines.len(),
            first_signal(ls, f) == first_signal(ls.skip(i as int), f),
            f == (|l: Seq<char>| line_verdict(l, expect.deep_view())),
        decreases lines.len() - i,
    {
        let l: &String = &lines[i];
        proof {
            assert(ls.skip(i as int).len() > 0);
            assert(ls.skip(i as int).first() == ls[i as int]);
            assert(ls[i as int] == l@);
        }
        match check_line(l.as_str(), expect) {
            Some(v) => {
                return (v, false);
            },
            None => {
                proof {
                    assert(ls.skip(i as int).drop_first() =~= ls.skip(i + 1));
                }
            },
        }
        i += 1;
    }
    proof {
        assert(ls.skip(ls.len() as int) =~= Seq::<Seq<char>>::empty());
    }
    (Status::Unknown, true)
}

/// One KLEE job's verdict from its output lines: the expectation marker
/// is read first, then the first verdict signal decides.  Returns the
/// verdict, the expectation, and whether no line carried any signal
/// (`Unknown`, to be logged as a warning naming the job).  The verdict
/// is a function of the captured lines alone, so classifying the same
/// capture twice yields the same verdict.
pub fn analyze(lines: &Vec<String>) -> (r: (Status, Option<String>, bool))
    ensures
        ({
            let e = spec_expectation(lines.deep_view());
            let sig = first_signal(lines.deep_view(), |l: Seq<char>| line_verdict(l, e));
            &&& r.0 == (match sig {
                Some(v) => v,
                None => Status::Unknown,
            })
            &&& r.1.deep_view() == e
            &&& r.2 == (sig is None)
        }),
{
    let expect = extract_expectation(lines);
    let (status, warned) = classify(lines, &expect);
    (status, expect, warned)
}

/// Display rank of one line of KLEE output; lower means more important.
///
/// `-1` is reserved for tool-setup failures that must always be shown;
/// an unrecognized KLEE-prefixed line ranks 0 so that it can never hide.
pub open spec fn spec_importance(l: Seq<char>, expect: Option<Seq<char>>) -> int {
    if prefix_of("VERIFIER_EXPECT:"@, l) {
        4
    } else if spec_is_expected_panic(l, expect) {
        5
    } else if contains_seq(l, "assertion failed"@) {
        1
    } else if contains_seq(l, "verification failed"@) {
        1
    } else if contains_seq(l, "with overflow"@) {
        1
    } else if prefix_of("KLEE: ERROR: Could not link"@, l) {
        -1
    } else if prefix_of("KLEE: ERROR: Unable to load symbol"@, l) {
        -1
    } else if prefix_of("KLEE: ERROR:"@, l) {
        2
    } else if prefix_of("warning: Linking two modules of different data layouts"@, l) {
        4
    } else if contains_seq(l, "KLEE: WARNING:"@) {
        4
    } else if contains_seq(l, "KLEE: WARNING ONCE:"@) {
        4
    } else if prefix_of("KLEE: output directory"@, l) {
        5
    } else if prefix_of("KLEE: Using"@, l) {
        5
    } else if prefix_of("KLEE: NOTE: Using POSIX model"@, l) {
        5
    } else if prefix_of("KLEE: done:"@, l) {
        5
    } else if prefix_of("KLEE: HaltTimer invoked"@, l) {
        5
    } else if prefix_of("KLEE: halting execution, dumping remaining states"@, l) {
        5
    } else if prefix_of("KLEE: NOTE: now ignoring this error at this location"@, l) {
        5
    } else if prefix_of("KLEE:"@, l) {
        0
    } else {
        3
    }
}

/// Exec mirror of `spec_importance`.
pub fn importance(l: &str, expect: &Option<String>) -> (r: i8)
    ensures
        r as int == spec_importance(l@, expect.deep_view()),
{
    if starts_with_str(l, "VERIFIER_EXPECT:") {
        4
    } else if is_expected_panic(l, expect) {
        5
    } else if contains_str(l, "assertion failed") {
        1
    } else if contains_str(l, "verification failed") {
        1
    } else if contains_str(l, "with overflow") {
        1
    } else if starts_with_str(l, "KLEE: ERROR: Could not link") {
        -1
    } else if starts_with_str(l, "KLEE: ERROR: Unable to load symbol") {
        -1
    } else if starts_with_str(l, "KLEE: ERROR:") {
        2
    } else if starts_with_str(l, "warning: Linking two modules of different data layouts") {
        4
    } else if contains_str(l, "KLEE: WARNING:") {
        4
    } else if contains_str(l, "KLEE: WARNING ONCE:") {
        4
    } else if starts_with_str(l, "KLEE: output directory") {
        5
    } else if starts_with_str(l, "KLEE: Using") {
        5
    } else if starts_with_str(l, "KLEE: NOTE: Using POSIX model") {
        5
    } else if starts_with_str(l, "KLEE: done:") {
        5
    } else if starts_with_str(l, "KLEE: HaltTimer invoked") {
        5
    } else if starts_with_str(l, "KLEE: halting execution, dumping remaining states") {
        5
    } else if starts_with_str(l, "KLEE: NOTE: now ignoring this error at this location") {
        5
    } else if starts_with_str(l, "KLEE:") {
        0
    } else {
        3
    }
}

/// Where one job's KLEE results go: a `kleeout` directory beside the
/// manifest, with one subdirectory per job so that concurrent jobs never
/// share verifier state.
pub fn output_dir(cargo_toml: &str, name: &str) -> (r: String)
    ensures
        r@ == crate::replay::spec_name_split(cargo_toml@).0 + "kleeout"@ + "/"@ + name@,
{
    let d = crate::runtools::with_file_name(cargo_toml, "kleeout");
    crate::runtools::path_join(d.as_str(), name)
}

/// The KLEE invocation for one job: the fixed flag template with the
/// entry point and output directory, the expanded user flags, the
/// artifact, and the program's own arguments — or, when asked, the user
/// flags alone in place of the defaults.
pub fn command_args(
    entry: &str,
    bcfile: &str,
    out_dir: &str,
    user_flags: &Vec<String>,
    replace_flags: bool,
    extra_args: &Vec<String>,
) -> (r: Vec<String>)
    ensures
        r.deep_view() =~= (if replace_flags {
            user_flags.deep_view()
        } else {
            seq![
                "--exit-on-error"@,
                "--entry-point"@,
                entry@,
                "--libc=klee"@,
                "--silent-klee-assume"@,
                "--disable-verify"@,
                "--output-dir"@,
                out_dir@,
            ] + user_flags.deep_view() + seq![bcfile@] + extra_args.deep_view()
        }),
{
    let mut out: Vec<String> = Vec::new();
    if replace_flags {
        crate::utils::push_all_strings(&mut out, user_flags);
        proof {
            assert(out.deep_view() =~= user_flags.deep_view());
        }
        return out;
    }
    out.push(String::from_str("--exit-on-error"));
    out.push(String::from_str("--entry-point"));
    out.push(String::from_str(entry));
    out.push(String::from_str("--libc=klee"));
    out.push(String::from_str("--silent-klee-assume"));
    out.push(String::from_str("--disable-verify"));
    out.push(String::from_str("--output-dir"));
    out.push(String::from_str(out_dir));
    crate::utils::push_all_strings(&mut out, user_flags);
    out.push(String::from_str(bcfile));
    crate::utils::push_all_strings(&mut out, extra_args);
    proof {
        assert(out.deep_view() =~~= seq![
            "--exit-on-error"@,
            "--entry-point"@,
            entry@,
            "--libc=klee"@,
            "--silent-klee-assume"@,
            "--disable-verify"@,
            "--output-dir"@,
            out_dir@,
        ] + user_flags.deep_view() + seq![bcfile@] + extra_args.deep_view());
    }
    out
}

proof fn lemma_klee_error_prefix(l: Seq<char>)
    requires
        !prefix_of("KLEE: ERROR:"@, l),
    ensures
        !prefix_of("KLEE: ERROR: Could not link"@, l),
        !prefix_of("KLEE: ERROR: Unable to load symbol"@, l),
{
    reveal_strlit("KLEE: ERROR:");
    reveal_strlit("KLEE: ERROR: Could not link");
    reveal_strlit("KLEE: ERROR: Unable to load symbol");
    assert(prefix_of("KLEE: ERROR:"@, "KLEE: ERROR: Could not link"@)) by {
        assert("KLEE: ERROR: Could not link"@.subrange(0, 12) =~= "KLEE: ERROR:"@);
    }
    assert(prefix_of("KLEE: ERROR:"@, "KLEE: ERROR: Unable to load symbol"@)) by {
        assert("KLEE: ERROR: Unable to load symbol"@.subrange(0, 12) =~= "KLEE: ERROR:"@);
    }
    if prefix_of("KLEE: ERROR: Could not link"@, l) {
        crate::text::lemma_prefix_of_trans("KLEE: ERROR:"@, "KLEE: ERROR: Could not link"@, l);
    }
    if prefix_of("KLEE: ERROR: Unable to load symbol"@, l) {
        crate::text::lemma_prefix_of_trans(
            "KLEE: ERROR:"@,
            "KLEE: ERROR: Unable to load symbol"@,
            l,
        );
    }
}

/// First match wins over the whole output: when no line before `i`
/// carries a signal and line `i` does, line `i` decides the verdict,
/// whatever signal a later line may carry.
pub proof fn lemma_first_match_wins(lines: Seq<Seq<char>>, expect: Option<Seq<char>>, i: int)
    requires
        0 <= i < lines.len(),
        forall|j: int| 0 <= j < i ==> line_verdict(#[trigger] lines[j], expect) is None,
        line_verdict(lines[i], expect) is Some,
    ensures
        first_signal(lines, |l: Seq<char>| line_verdict(l, expect)) == line_verdict(
            lines[i],
            expect,
        ),
{
    crate::classify::lemma_first_signal_decides(
        lines,
        |l: Seq<char>| line_verdict(l, expect),
        i,
    );
}

/// The expected-panic rule outranks the generic failure rules: a plain
/// program line whose panic message contains the expected substring is
/// classified `Verified`, even when the same line (or a later one) would
/// also match an overflow or assertion predicate.  With the first line
/// carrying any signal being this panic line, the whole output is
/// `Verified`.
pub proof fn lemma_expected_panic_decides(lines: Seq<Seq<char>>, e: Seq<char>, i: int)
    requires
        0 <= i < lines.len(),
        forall|j: int| 0 <= j < i ==> line_verdict(#[trigger] lines[j], Some(e)) is None,
        spec_is_expected_panic(lines[i], Some(e)),
        !prefix_of("KLEE: HaltTimer invoked"@, lines[i]),
        !prefix_of("KLEE: halting execution, dumping remaining states"@, lines[i]),
        !prefix_of("KLEE: ERROR:"@, lines[i]),
        !prefix_of("VERIFIER_EXPECT:"@, lines[i]),
    ensures
        first_signal(lines, |l: Seq<char>| line_verdict(l, Some(e))) == Some(Status::Verified),
{
    lemma_klee_error_prefix(lines[i]);
    assert(line_verdict(lines[i], Some(e)) == Some(Status::Verified));
    lemma_first_match_wins(lines, Some(e), i);
}

/// A completion signal resolves by the expectation: when the first line
/// carrying any signal is KLEE's own "done" line, the verdict is
/// `Verified` exactly when no failure was expected, and `Error` when an
/// expected failure never occurred.
pub proof fn lemma_clean_run_needs_expectation(
    lines: Seq<Seq<char>>,
    expect: Option<Seq<char>>,
    i: int,
)
    requires
        0 <= i < lines.len(),
        forall|j: int| 0 <= j < i ==> line_verdict(#[trigger] lines[j], expect) is None,
        contains_seq(lines[i], "KLEE: done:"@),
        !prefix_of("KLEE: HaltTimer invoked"@, lines[i]),
        !prefix_of("KLEE: halting execution, dumping remaining states"@, lines[i]),
        !prefix_of("KLEE: ERROR:"@, lines[i]),
        !prefix_of("VERIFIER_EXPECT:"@, lines[i]),
        !spec_is_expected_panic(lines[i], expect),
        !contains_seq(lines[i], "assertion failed"@),
        !contains_seq(lines[i], "verification failed"@),
        !contains_seq(lines[i], "index out of bounds"@),
        !contains_seq(lines[i], "with overflow"@),
        !contains_seq(lines[i], "panicked at"@),
        !contains_seq(lines[i], "note: run with `RUST_BACKTRACE=1`"@),
    ensures
        first_signal(lines, |l: Seq<char>| line_verdict(l, expect)) == Some(
            if expect is None {
                Status::Verified
            } else {
                Status::Error
            },
        ),
{
    lemma_klee_error_prefix(lines[i]);
    assert(line_verdict(lines[i], expect) == Some(
        if expect is None {
            Status::Verified
        } else {
            Status::Error
        },
    ));
    lemma_first_match_wins(lines, expect, i);
}

/// When no KLEE output line matches any predicate, the verdict is
/// `Unknown` and the gap is reported.
pub proof fn lemma_unmatched_output_is_unknown(lines: Seq<Seq<char>>, expect: Option<Seq<char>>)
    requires
        forall|i: int|
            0 <= i < lines.len() ==> line_verdict(#[trigger] lines[i], expect) is None,
    ensures
        first_signal(lines, |l: Seq<char>| line_verdict(l, expect)) is None,
{
    lemma_no_signal(lines, |l: Seq<char>| line_verdict(l, expect));
}

} // verus!
