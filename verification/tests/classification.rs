//! End-to-end tests of the per-backend output classifiers.

use rvt::expect::{expect, expect_raw, extract_expectation, is_expected_panic, panic_message};
use rvt::klee;
use rvt::proptest;
use rvt::seahorn;
use rvt::smack;
use rvt::status::Status;

fn lines(ls: &[&str]) -> Vec<String> {
    ls.iter().map(|s| s.to_string()).collect()
}

#[test]
fn klee_out_of_bound_pointer_is_out_of_bounds() {
    let out = lines(&["KLEE: ERROR: memory error: out of bound pointer"]);
    let (status, expectation, warned) = klee::analyze(&out);
    assert_eq!(status, Status::OutOfBounds);
    assert_eq!(expectation, None);
    assert!(!warned);
}

#[test]
fn klee_expected_overflow_panic_is_verified() {
    let out = lines(&[
        "VERIFIER_EXPECT: should_panic(expected = \"overflow\")",
        "thread panicked at 'attempt to add with overflow', src/main.rs:10:5",
    ]);
    let (status, expectation, warned) = klee::analyze(&out);
    assert_eq!(status, Status::Verified);
    assert_eq!(expectation.as_deref(), Some("overflow"));
    assert!(!warned);
}

#[test]
fn klee_expected_panic_beats_later_overflow_line() {
    let out = lines(&[
        "VERIFIER_EXPECT: should_panic(expected = \"boom\")",
        "thread panicked at 'boom happened', src/main.rs:3:3",
        "something failed with overflow",
    ]);
    let (status, _, _) = klee::analyze(&out);
    assert_eq!(status, Status::Verified);
}

#[test]
fn klee_earlier_overflow_line_wins_over_panic() {
    // First-match-wins: the overflow line comes first, so it decides.
    let out = lines(&[
        "VERIFIER_EXPECT: should_panic(expected = \"boom\")",
        "something failed with overflow",
        "thread panicked at 'boom happened', src/main.rs:3:3",
    ]);
    let (status, _, _) = klee::analyze(&out);
    assert_eq!(status, Status::Overflow);
}

#[test]
fn klee_unmatched_output_is_unknown_and_warned() {
    let out = lines(&["some banner", "more text", "nothing recognizable"]);
    let (status, expectation, warned) = klee::analyze(&out);
    assert_eq!(status, Status::Unknown);
    assert_eq!(expectation, None);
    assert!(warned);
}

#[test]
fn klee_done_without_expectation_is_verified() {
    let out = lines(&["KLEE: done: total instructions = 11852"]);
    let (status, _, warned) = klee::analyze(&out);
    assert_eq!(status, Status::Verified);
    assert!(!warned);
}

#[test]
fn klee_done_with_unmet_expectation_is_error() {
    let out = lines(&[
        "VERIFIER_EXPECT: should_panic",
        "KLEE: done: total instructions = 11852",
    ]);
    let (status, expectation, _) = klee::analyze(&out);
    assert_eq!(expectation.as_deref(), Some(""));
    assert_eq!(status, Status::Error);
}

#[test]
fn klee_verdict_table_variants() {
    let e: Option<String> = None;
    let check = |l: &str| klee::check_line(l, &e);
    assert_eq!(check("KLEE: HaltTimer invoked"), Some(Status::Timeout));
    assert_eq!(
        check("KLEE: halting execution, dumping remaining states"),
        Some(Status::Timeout)
    );
    assert_eq!(check("KLEE: ERROR: Could not link x"), Some(Status::Unknown));
    assert_eq!(
        check("KLEE: ERROR: Unable to load symbol y"),
        Some(Status::Unknown)
    );
    assert_eq!(
        check("KLEE: ERROR: now it hit unreachable code"),
        Some(Status::Reachable)
    );
    assert_eq!(
        check("KLEE: ERROR: overflow on add"),
        Some(Status::Overflow)
    );
    assert_eq!(check("KLEE: ERROR: other"), Some(Status::Error));
    assert_eq!(check("x assertion failed x"), Some(Status::AssertFailed));
    assert_eq!(check("x verification failed"), Some(Status::Error));
    assert_eq!(
        check("index out of bounds: the len is 3"),
        Some(Status::OutOfBounds)
    );
    assert_eq!(check("attempt to add with overflow"), Some(Status::Overflow));
    assert_eq!(
        check("thread 'main' panicked at 'oh', src/a.rs:1:1"),
        Some(Status::Panic)
    );
    assert_eq!(
        check("note: run with `RUST_BACKTRACE=1` for a backtrace"),
        Some(Status::Error)
    );
    assert_eq!(check("VERIFIER_EXPECT: should_panic"), None);
    assert_eq!(check("hello"), None);
}

#[test]
fn klee_classification_is_idempotent() {
    let out = lines(&[
        "KLEE: output directory is x",
        "attempt to multiply with overflow",
    ]);
    let first = klee::analyze(&out);
    let second = klee::analyze(&out);
    assert_eq!(first.0, second.0);
    assert_eq!(first.1, second.1);
    assert_eq!(first.2, second.2);
}

#[test]
fn klee_importance_ranks() {
    let e: Option<String> = None;
    assert_eq!(klee::importance("VERIFIER_EXPECT: should_panic", &e), 4);
    assert_eq!(klee::importance("x assertion failed", &e), 1);
    assert_eq!(klee::importance("KLEE: ERROR: Could not link x", &e), -1);
    assert_eq!(klee::importance("KLEE: ERROR: other", &e), 2);
    assert_eq!(klee::importance("KLEE: WARNING: w", &e), 4);
    assert_eq!(klee::importance("KLEE: done: 1", &e), 5);
    assert_eq!(klee::importance("KLEE: surprising", &e), 0);
    assert_eq!(klee::importance("application text", &e), 3);
    let some = Some("boom".to_string());
    assert_eq!(
        klee::importance("thread panicked at 'boom', here:1:2", &some),
        5
    );
}

#[test]
fn seahorn_unsat_depends_on_expectation() {
    let (status, expectation, warned) =
        seahorn::analyze(&lines(&["unsat"]), &lines(&[]));
    assert_eq!(status, Status::Verified);
    assert_eq!(expectation, None);
    assert!(!warned);

    let (status2, expectation2, _) = seahorn::analyze(
        &lines(&[
            "VERIFIER_EXPECT: should_panic(expected = \"x\")",
            "unsat",
        ]),
        &lines(&[]),
    );
    assert_eq!(expectation2.as_deref(), Some("x"));
    assert_eq!(status2, Status::Error);
}

#[test]
fn seahorn_sat_is_error_and_stdout_is_scanned() {
    let (status, _, _) = seahorn::analyze(&lines(&["banner"]), &lines(&["sat"]));
    assert_eq!(status, Status::Error);
}

#[test]
fn seahorn_unmatched_is_unknown() {
    let (status, _, warned) = seahorn::analyze(&lines(&["noise"]), &lines(&["hum"]));
    assert_eq!(status, Status::Unknown);
    assert!(warned);
}

#[test]
fn seahorn_importance_ranks() {
    let e: Option<String> = None;
    assert_eq!(seahorn::importance("VERIFIER_EXPECT: should_panic", &e), 4);
    assert_eq!(seahorn::importance("sat", &e), 1);
    assert_eq!(seahorn::importance("Warning: Externalizing function: f", &e), 4);
    assert_eq!(seahorn::importance("unsat", &e), 5);
    assert_eq!(seahorn::importance("Warning: odd", &e), 0);
    assert_eq!(seahorn::importance("application text", &e), 3);
}

#[test]
fn smack_summary_lines_decide() {
    let (ok, warned_ok) = smack::analyze(&lines(&["SMACK found no errors"]), &lines(&[]));
    assert_eq!(ok, Status::Verified);
    assert!(!warned_ok);
    let (bad, _) = smack::analyze(&lines(&[]), &lines(&["SMACK found an error"]));
    assert_eq!(bad, Status::Error);
    let (unknown, warned) = smack::analyze(&lines(&["x"]), &lines(&["y"]));
    assert_eq!(unknown, Status::Unknown);
    assert!(warned);
}

#[test]
fn proptest_outcome_classification() {
    assert!(proptest::check_install());
    assert_eq!(
        proptest::classify_outcome(true, &lines(&[])),
        Status::Verified
    );
    assert_eq!(
        proptest::classify_outcome(false, &lines(&["attempt to add with overflow"])),
        Status::Overflow
    );
    assert_eq!(
        proptest::classify_outcome(false, &lines(&["plain failure"])),
        Status::Error
    );
}

#[test]
fn expectation_markers_round_trip() {
    let some = expect(Some("overflow"));
    assert_eq!(
        some,
        "VERIFIER_EXPECT: should_panic(expected = \"overflow\")"
    );
    let bare = expect(None);
    assert_eq!(bare, "VERIFIER_EXPECT: should_panic");
    assert_eq!(expect_raw("should_panic"), "VERIFIER_EXPECT: should_panic");

    let read = extract_expectation(&vec![some, "noise".to_string()]);
    assert_eq!(read.as_deref(), Some("overflow"));
    let read_bare = extract_expectation(&vec![bare]);
    assert_eq!(read_bare.as_deref(), Some(""));
}

#[test]
fn expectation_last_marker_wins() {
    let read = extract_expectation(&lines(&[
        "VERIFIER_EXPECT: should_panic(expected = \"first\")",
        "VERIFIER_EXPECT: should_panic(expected = \"second\")",
    ]));
    assert_eq!(read.as_deref(), Some("second"));
}

#[test]
fn panic_message_extraction() {
    assert_eq!(
        panic_message("thread 'main' panicked at 'boom now', src/main.rs:1:5"),
        Some("boom now")
    );
    assert_eq!(panic_message("no panic here"), None);
    // The location part is required.
    assert_eq!(panic_message("x panicked at 'boom'"), None);
}

#[test]
fn expected_panic_needs_matching_substring() {
    let line = "thread panicked at 'hit the boom case', src/main.rs:2:2";
    assert!(is_expected_panic(line, &Some("boom".to_string())));
    assert!(is_expected_panic(line, &Some("".to_string())));
    assert!(!is_expected_panic(line, &Some("other".to_string())));
    assert!(!is_expected_panic(line, &None));
}
