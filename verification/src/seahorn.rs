//! Verdict and importance classification for Seahorn output.
//!
//! Seahorn's result is a bare `sat` or `unsat` line.  `unsat` means no
//! counterexample was found: that is `Verified` only when no failure was
//! expected; when an expectation was set and never matched, the clean run
//! is itself an error (the expected failure did not occur).  Expectation
//! markers appear on stderr; the result appears on stderr or stdout, so
//! stderr is scanned first and stdout after it.

use vstd::prelude::*;

use crate::classify::{first_signal, lemma_first_signal_append};
use crate::expect::{extract_expectation, is_expected_panic, spec_expectation, spec_is_expected_panic};
use crate::status::Status;
use crate::text::{prefix_of, starts_with_str, str_eq, suffix_of, ends_with_str};

verus! {

/// The ordered predicate table for one line of Seahorn output.
pub open spec fn line_verdict(l: Seq<char>, expect: Option<Seq<char>>) -> Option<Status> {
    if prefix_of("VERIFIER_EXPECT:"@, l) {
        None
    } else if spec_is_expected_panic(l, expect) {
        Some(Status::Verified)
    } else if l == "sat"@ {
        Some(Status::Error)
    } else if l == "unsat"@ {
        if expect is None {
            Some(Status::Verified)
        } else {
            Some(Status::Error)
        }
    } else {
        None
    }
}

/// Exec mirror of `line_verdict`.
pub fn check_line(l: &str, expect: &Option<String>) -> (r: Option<Status>)
    ensures
        r == line_verdict(l@, expect.deep_view()),
{
    if starts_with_str(l, "VERIFIER_EXPECT:") {
        None
    } else if is_expected_panic(l, expect) {
        Some(Status::Verified)
    } else if str_eq(l, "sat") {
        Some(Status::Error)
    } else if str_eq(l, "unsat") {
        if expect.is_none() {
            Some(Status::Verified)
        } else {
            Some(Status::Error)
        }
    } else {
        None
    }
}

/// Scan one capture in order under a fixed expectation; first signal wins.
pub fn classify(lines: &Vec<String>, expect: &Option<String>) -> (r: Option<Status>)
    ensures
        r == first_signal(lines.deep_view(), |l: Seq<char>| line_verdict(l, expect.deep_view())),
{
    let ghost ls = lines.deep_view();
    let ghost f = |l: Seq<char>| line_verdict(l, expect.deep_view());
    proof {
        assert(ls.skip(0) =~= ls);
    }
    let mut i: usize = 0;
    while i < lines.len()
        invariant
            ls == lines.deep_view(),
            ls.len() == lines.len(),
            0 <= i <= lines.len(),
            first_signal(ls, f) == first_signal(ls.skip(i as int), f),
            f == (|l: Seq<char>| line_verdict(l, expect.deep_view())),
        decreases lines.len() - i,
    {
        let l: &String = &lines[i];
        proof {
            assert(ls.skip(i as int).first() == ls[i as int]);
            assert(ls[i as int] == l@);
        }
        match check_line(l.as_str(), expect) {
            Some(v) => {
                return Some(v);
            },
            None => {
                proof {
                    assert(ls.skip(i as int).drop_first() =~= ls.skip(i + 1));
                }
            },
        }
        i += 1;
    }
    proof {
        assert(ls.skip(ls.len() as int) =~= Seq::<Seq<char>>::empty());
    }
    None
}

/// Reduce one Seahorn run to a verdict.  The expectation is read from
/// stderr; the verdict signal is looked for on stderr first, then stdout.
/// The last component reports the classification gap (verdict `Unknown`,
/// to be logged as a warning naming the job).  The verdict is a function
/// of the captured lines alone, so classifying the same capture twice
/// yields the same verdict.
pub fn analyze(stderr_lines: &Vec<String>, stdout_lines: &Vec<String>) -> (r: (
    Status,
    Option<String>,
    bool,
))
    ensures
        ({
            let e = spec_expectation(stderr_lines.deep_view());
            let sig = first_signal(
                stderr_lines.deep_view() + stdout_lines.deep_view(),
                |l: Seq<char>| line_verdict(l, e),
            );
            &&& r.0 == (match sig {
                Some(v) => v,
                None => Status::Unknown,
            })
            &&& r.1.deep_view() == e
            &&& r.2 == (sig is None)
        }),
{
    let expect = extract_expectation(stderr_lines);
    let ghost e = expect.deep_view();
    let ghost f = |l: Seq<char>| line_verdict(l, e);
    proof {
        lemma_first_signal_append(stderr_lines.deep_view(), stdout_lines.deep_view(), f);
    }
    let first = classify(stderr_lines, &expect);
    match first {
        Some(v) => (v, expect, false),
        None => {
            let second = classify(stdout_lines, &expect);
            match second {
                Some(v) => (v, expect, false),
                None => (Status::Unknown, expect, true),
            }
        },
    }
}

/// Where one job's Seahorn results go: a `seaout` directory beside the
/// manifest, one subdirectory per job.
pub fn output_dir(cargo_toml: &str, name: &str) -> (r: String)
    ensures
        r@ == crate::replay::spec_name_split(cargo_toml@).0 + "seaout"@ + "/"@ + name@,
{
    let d = crate::runtools::with_file_name(cargo_toml, "seaout");
    crate::runtools::path_join(d.as_str(), name)
}

/// The Seahorn invocation for one job: the pipeline recipe with its base
/// configuration, the per-job temporary directory and entry point, the
/// expanded user flags and the artifact — or the user flags alone in
/// place of the defaults.
pub fn command_args(
    verify_common_dir: &str,
    entry: &str,
    bcfile: &str,
    out_dir: &str,
    user_flags: &Vec<String>,
    replace_flags: bool,
) -> (r: Vec<String>)
    ensures
        r.deep_view() =~= (if replace_flags {
            user_flags.deep_view()
        } else {
            seq![
                "yama"@,
                "-y"@,
                verify_common_dir@ + "/seahorn/sea_base.yaml"@,
                "bpf"@,
                "--temp-dir="@ + out_dir@,
                "--entry="@ + entry@,
            ] + user_flags.deep_view() + seq![bcfile@]
        }),
{
    let mut out: Vec<String> = Vec::new();
    if replace_flags {
        crate::utils::push_all_strings(&mut out, user_flags);
        proof {
            assert(out.deep_view() =~= user_flags.deep_view());
        }
        return out;
    }
    out.push(String::from_str("yama"));
    out.push(String::from_str("-y"));
    out.push(String::from_str(verify_common_dir).concat("/seahorn/sea_base.yaml"));
    out.push(String::from_str("bpf"));
    out.push(String::from_str("--temp-dir=").concat(out_dir));
    out.push(String::from_str("--entry=").concat(entry));
    crate::utils::push_all_strings(&mut out, user_flags);
    out.push(String::from_str(bcfile));
    proof {
        assert(out.deep_view() =~~= seq![
            "yama"@,
            "-y"@,
            verify_common_dir@ + "/seahorn/sea_base.yaml"@,
            "bpf"@,
            "--temp-dir="@ + out_dir@,
            "--entry="@ + entry@,
        ] + user_flags.deep_view() + seq![bcfile@]);
    }
    out
}

/// A clean Seahorn run resolves by the expectation: when no earlier line
/// carries a signal and line `i` is the bare `unsat` answer (no
/// counterexample found), the verdict is `Verified` exactly when no
/// failure was expected, and `Error` when an expected failure never
/// occurred.
pub proof fn lemma_clean_run_needs_expectation(
    lines: Seq<Seq<char>>,
    expect: Option<Seq<char>>,
    i: int,
)
    requires
        0 <= i < lines.len(),
        forall|j: int| 0 <= j < i ==> line_verdict(#[trigger] lines[j], expect) is None,
        lines[i] == "unsat"@,
    ensures
        first_signal(lines, |l: Seq<char>| line_verdict(l, expect)) == Some(
            if expect is None {
                Status::Verified
            } else {
                Status::Error
            },
        ),
{
    reveal_strlit("unsat");
    reveal_strlit("sat");
    reveal_strlit("VERIFIER_EXPECT:");
    reveal_strlit(" panicked at '");
    let l = lines[i];
    assert(!prefix_of("VERIFIER_EXPECT:"@, l));
    crate::expect::lemma_short_line_no_panic(l);
    assert(l != "sat"@);
    assert(line_verdict(l, expect) == Some(
        if expect is None {
            Status::Verified
        } else {
            Status::Error
        },
    ));
    crate::classify::lemma_first_signal_decides(
        lines,
        |l: Seq<char>| line_verdict(l, expect),
        i,
    );
}

/// Display rank of one line of Seahorn output; lower means more important.
/// An unrecognized warning ranks 0 so that it can never hide.
pub open spec fn spec_importance(l: Seq<char>, expect: Option<Seq<char>>) -> int {
    if prefix_of("VERIFIER_EXPECT:"@, l) {
        4
    } else if l == "sat"@ {
        1
    } else if prefix_of("Warning: Externalizing function:"@, l) || prefix_of(
        "Warning: not lowering an initializer for a global struct:"@,
        l,
    ) || (prefix_of("Warning: found"@, l) && suffix_of(
        "possible reads of undefined values"@,
        l,
    )) {
        4
    } else if spec_is_expected_panic(l, expect) || l == "unsat"@ {
        5
    } else if prefix_of("Warning:"@, l) {
        0
    } else {
        3
    }
}

/// Exec mirror of `spec_importance`.
pub fn importance(l: &str, expect: &Option<String>) -> (r: i8)
    ensures
        r as int == spec_importance(l@, expect.deep_view()),
{
    if starts_with_str(l, "VERIFIER_EXPECT:") {
        4
    } else if str_eq(l, "sat") {
        1
    } else if starts_with_str(l, "Warning: Externalizing function:") || starts_with_str(
        l,
        "Warning: not lowering an initializer for a global struct:",
    ) || (starts_with_str(l, "Warning: found") && ends_with_str(
        l,
        "possible reads of undefined values",
    )) {
        4
    } else if is_expected_panic(l, expect) || str_eq(l, "unsat") {
        5
    } else if starts_with_str(l, "Warning:") {
        0
    } else {
        3
    }
}

} // verus!
