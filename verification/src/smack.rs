//! Verdict classification for SMACK output.
//!
//! SMACK prints a single summary line; expectations play no role.  Both
//! captured streams are scanned, stderr first.

use vstd::prelude::*;

use crate::classify::{first_signal, lemma_first_signal_append};
use crate::status::Status;
use crate::text::{prefix_of, starts_with_str};

verus! {

/// The ordered predicate table for one line of SMACK output.
pub open spec fn line_verdict(l: Seq<char>) -> Option<Status> {
    if prefix_of("SMACK found no errors"@, l) {
        Some(Status::Verified)
    } else if prefix_of("SMACK found an error"@, l) {
        Some(Status::Error)
    } else {
        None
    }
}

/// Exec mirror of `line_verdict`.
pub fn check_line(l: &str) -> (r: Option<Status>)
    ensures
        r == line_verdict(l@),
{
    if starts_with_str(l, "SMACK found no errors") {
        Some(Status::Verified)
    } else if starts_with_str(l, "SMACK found an error") {
        Some(Status::Error)
    } else {
        None
    }
}

/// Scan one capture in order; first signal wins.
pub fn classify(lines: &Vec<String>) -> (r: Option<Status>)
    ensures
        r == first_signal(lines.deep_view(), |l: Seq<char>| line_verdict(l)),
{
    let ghost ls = lines.deep_view();
    let ghost f = |l: Seq<char>| line_verdict(l);
    proof {
        assert(ls.skip(0) =~= ls);
    }
    let mut i: usize = 0;
    while i < lines.len()
        invariant
            ls == lines.deep_view(),
            ls.len() == lines.len(),
            0 <= i <= lines.len(),
            first_signal(ls, f) == first_signal(ls.skip(i as int), f),
            f == (|l: Seq<char>| line_verdict(l)),
        decreases lines.len() - i,
    {
        let l: &String = &lines[i];
        proof {
            assert(ls.skip(i as int).first() == ls[i as int]);
            assert(ls[i as int] == l@);
        }
        match check_line(l.as_str()) {
            Some(v) => {
                return Some(v);
            },
            None => {
                proof {
                    assert(ls.skip(i as int).drop_first() =~= ls.skip(i + 1));
                }
            },
        }
        i += 1;
    }
    proof {
        assert(ls.skip(ls.len() as int) =~= Seq::<Seq<char>>::empty());
    }
    None
}

/// Reduce one SMACK run to a verdict, scanning stderr then stdout; when
/// neither stream holds the summary line the verdict is `Unknown` and the
/// last component asks the caller to log a warning naming the job.
pub fn analyze(stderr_lines: &Vec<String>, stdout_lines: &Vec<String>) -> (r: (Status, bool))
    ensures
        ({
            let sig = first_signal(
                stderr_lines.deep_view() + stdout_lines.deep_view(),
                |l: Seq<char>| line_verdict(l),
            );
            &&& r.0 == (match sig {
                Some(v) => v,
                None => Status::Unknown,
            })
            &&& r.1 == (sig is None)
        }),
{
    let ghost f = |l: Seq<char>| line_verdict(l);
    proof {
        lemma_first_signal_append(stderr_lines.deep_view(), stdout_lines.deep_view(), f);
    }
    match classify(stderr_lines) {
        Some(v) => (v, false),
        None => {
            match classify(stdout_lines) {
                Some(v) => (v, false),
                None => (Status::Unknown, true),
            }
        },
    }
}

/// Where one job's SMACK results go: a `smackout` directory beside the
/// manifest, one subdirectory per job.
pub fn output_dir(cargo_toml: &str, name: &str) -> (r: String)
    ensures
        r@ == crate::replay::spec_name_split(cargo_toml@).0 + "smackout"@ + "/"@ + name@,
{
    let d = crate::runtools::with_file_name(cargo_toml, "smackout");
    crate::runtools::path_join(d.as_str(), name)
}

/// The SMACK invocation for one job: the fixed verifier choice, the
/// expanded user flags, the per-job entry point and the artifact.
pub fn command_args(entry: &str, bcfile: &str, user_flags: &Vec<String>) -> (r: Vec<String>)
    ensures
        r.deep_view() =~= seq!["--verifier=boogie"@] + user_flags.deep_view() + seq![
            "--entry-points="@ + entry@,
            bcfile@,
        ],
{
    let mut out: Vec<String> = Vec::new();
    out.push(String::from_str("--verifier=boogie"));
    crate::utils::push_all_strings(&mut out, user_flags);
    out.push(String::from_str("--entry-points=").concat(entry));
    out.push(String::from_str(bcfile));
    proof {
        assert(out.deep_view() =~~= seq!["--verifier=boogie"@] + user_flags.deep_view() + seq![
            "--entry-points="@ + entry@,
            bcfile@,
        ]);
    }
    out
}

} // verus!
