//! Backend choice and invocation options.
//!
//! Exactly one backend runs per invocation of the tool: the one the user
//! asked for (failing loudly when its tool is missing), or the first
//! installed one in a fixed preference order, with the plain test harness
//! as the always-available fallback.

use vstd::prelude::*;

use crate::text::{replace_all, spec_replace};

verus! {

/// The available verification backends.
#[derive(Debug, Clone, Copy, PartialEq, Eq, Structural)]
pub enum Backend {
    Proptest,
    Klee,
    Seahorn,
}

pub open spec fn spec_backend_label(b: Backend) -> Seq<char> {
    match b {
        Backend::Proptest => "proptest"@,
        Backend::Klee => "klee"@,
        Backend::Seahorn => "seahorn"@,
    }
}

impl Backend {
    /// The lower-case name used in messages and in the runtime-library
    /// file name.
    pub fn label(&self) -> (r: &'static str)
        ensures
            r@ == spec_backend_label(*self),
    {
        match self {
            Backend::Proptest => "proptest",
            Backend::Klee => "klee",
            Backend::Seahorn => "seahorn",
        }
    }

    /// The cargo feature that selects this backend's annotation flavor in
    /// the program under test, if it needs one.
    pub fn feature(&self) -> (r: Option<&'static str>)
        ensures
            match *self {
                Backend::Proptest => r is None,
                Backend::Klee => r matches Some(f) && f@ == "verifier-klee"@,
                Backend::Seahorn => r matches Some(f) && f@ == "verifier-seahorn"@,
            },
    {
        match self {
            Backend::Proptest => None,
            Backend::Klee => Some("verifier-klee"),
            Backend::Seahorn => Some("verifier-seahorn"),
        }
    }
}

pub open spec fn result_view(r: Result<Backend, String>) -> Result<Backend, Seq<char>> {
    match r {
        Ok(b) => Ok(b),
        Err(e) => Err(e@),
    }
}

/// Which backend the chosen one is, given the explicit request and which
/// external tools are installed.
pub open spec fn spec_select_backend(
    requested: Option<Backend>,
    has_output: bool,
    klee_installed: bool,
    seahorn_installed: bool,
) -> Result<Backend, Seq<char>> {
    match requested {
        Some(Backend::Proptest) => if has_output {
            Err("backend proptest does not support --output"@)
        } else {
            Ok(Backend::Proptest)
        },
        Some(Backend::Klee) => if klee_installed {
            Ok(Backend::Klee)
        } else {
            Err("Klee is not installed"@)
        },
        Some(Backend::Seahorn) => if seahorn_installed {
            Ok(Backend::Seahorn)
        } else {
            Err("Seahorn is not installed"@)
        },
        None => if klee_installed {
            Ok(Backend::Klee)
        } else if seahorn_installed {
            Ok(Backend::Seahorn)
        } else {
            Ok(Backend::Proptest)
        },
    }
}

/// Pick the backend for this run.  An explicitly requested backend must
/// be installed (and the fallback backend cannot write a bitcode file);
/// with no request, the first installed backend in the fixed preference
/// order wins, and the test-harness fallback is always available.
pub fn select_backend(
    requested: Option<Backend>,
    has_output: bool,
    klee_installed: bool,
    seahorn_installed: bool,
) -> (r: Result<Backend, String>)
    ensures
        result_view(r) == spec_select_backend(
            requested,
            has_output,
            klee_installed,
            seahorn_installed,
        ),
{
    match requested {
        Some(Backend::Proptest) => if has_output {
            Err(String::from_str("backend proptest does not support --output"))
        } else {
            Ok(Backend::Proptest)
        },
        Some(Backend::Klee) => if klee_installed {
            Ok(Backend::Klee)
        } else {
            Err(String::from_str("Klee is not installed"))
        },
        Some(Backend::Seahorn) => if seahorn_installed {
            Ok(Backend::Seahorn)
        } else {
            Err(String::from_str("Seahorn is not installed"))
        },
        None => if klee_installed {
            Ok(Backend::Klee)
        } else if seahorn_installed {
            Ok(Backend::Seahorn)
        } else {
            Ok(Backend::Proptest)
        },
    }
}

pub open spec fn unit_result_view(r: Result<(), String>) -> Result<(), Seq<char>> {
    match r {
        Ok(u) => Ok(u),
        Err(e) => Err(e@),
    }
}

/// Which option combinations each backend refuses.
pub open spec fn spec_validate_options(
    backend: Backend,
    replay: nat,
    args_empty: bool,
) -> Result<(), Seq<char>> {
    match backend {
        Backend::Proptest => if replay > 0 && !args_empty {
            Err("The Proptest backend does not support '--replay' and passing arguments together."@)
        } else {
            Ok(())
        },
        Backend::Seahorn => if !args_empty {
            Err("The Seahorn backend does not support passing arguments yet."@)
        } else if replay != 0 {
            Err("The Seahorn backend does not support '--replay' yet."@)
        } else {
            Ok(())
        },
        Backend::Klee => Ok(()),
    }
}

/// Refuse option combinations the chosen backend cannot honor.
pub fn validate_options(backend: Backend, replay: usize, args_empty: bool) -> (r: Result<
    (),
    String,
>)
    ensures
        unit_result_view(r) == spec_validate_options(backend, replay as nat, args_empty),
{
    match backend {
        Backend::Proptest => if replay > 0 && !args_empty {
            Err(
                String::from_str(
                    "The Proptest backend does not support '--replay' and passing arguments together.",
                ),
            )
        } else {
            Ok(())
        },
        Backend::Seahorn => if !args_empty {
            Err(String::from_str("The Seahorn backend does not support passing arguments yet."))
        } else if replay != 0 {
            Err(String::from_str("The Seahorn backend does not support '--replay' yet."))
        } else {
            Ok(())
        },
        Backend::Klee => Ok(()),
    }
}

/// Output verbosity, combined from the `--quiet` and `--verbose` flags.
#[derive(Debug, Clone, Copy, PartialEq, Eq, Structural)]
pub enum Verbosity {
    /// Minimal output; one character per test.
    Quiet,
    /// Default verbosity: announce major steps.
    Normal,
    /// Also show execution times.
    Informative,
    /// Show commands and output of major steps.
    Major,
    /// Show commands and output of minor steps.
    Minor,
    /// Show every command, however trivial.
    Trivial,
}

impl Default for Verbosity {
    fn default() -> (r: Verbosity)
        ensures
            r == Verbosity::Normal,
    {
        Verbosity::Normal
    }
}

pub open spec fn spec_verbosity_from(quiet: bool, verbose: nat) -> Verbosity {
    if quiet {
        Verbosity::Quiet
    } else if verbose == 0 {
        Verbosity::Normal
    } else if verbose == 1 {
        Verbosity::Informative
    } else if verbose == 2 {
        Verbosity::Major
    } else if verbose == 3 {
        Verbosity::Minor
    } else {
        Verbosity::Trivial
    }
}

/// Combine the `--quiet` flag and the number of `--verbose` flags.
pub fn verbosity_from(quiet: bool, verbose: usize) -> (r: Verbosity)
    ensures
        r == spec_verbosity_from(quiet, verbose as nat),
{
    if quiet {
        Verbosity::Quiet
    } else if verbose == 0 {
        Verbosity::Normal
    } else if verbose == 1 {
        Verbosity::Informative
    } else if verbose == 2 {
        Verbosity::Major
    } else if verbose == 3 {
        Verbosity::Minor
    } else {
        Verbosity::Trivial
    }
}

/// What a templated user flag expands to: the current job's entry symbol,
/// artifact path and output directory are substituted for their
/// placeholders.
pub open spec fn spec_format_flag(
    flag: Seq<char>,
    entry: Seq<char>,
    file: Seq<char>,
    output_dir: Seq<char>,
) -> Seq<char> {
    spec_replace(
        spec_replace(spec_replace(flag, "{entry}"@, entry), "{file}"@, file),
        "{output_dir}"@,
        output_dir,
    )
}

/// Expand the placeholders in one user-supplied backend flag.
pub fn format_flag(flag: &str, entry: &str, file: &str, output_dir: &str) -> (r: String)
    ensures
        r@ == spec_format_flag(flag@, entry@, file@, output_dir@),
{
    proof {
        reveal_strlit("{entry}");
        reveal_strlit("{file}");
        reveal_strlit("{output_dir}");
    }
    let a = replace_all(flag, "{entry}", entry);
    let b = replace_all(a.as_str(), "{file}", file);
    replace_all(b.as_str(), "{output_dir}", output_dir)
}

/// Expand the placeholders in every user-supplied backend flag.
pub fn format_flags(flags: &Vec<String>, entry: &str, file: &str, output_dir: &str) -> (r: Vec<
    String,
>)
    ensures
        r.deep_view().len() == flags.deep_view().len(),
        forall|i: int|
            0 <= i < flags.deep_view().len() ==> r.deep_view()[i] == spec_format_flag(
                #[trigger] flags.deep_view()[i],
                entry@,
                file@,
                output_dir@,
            ),
{
    let mut out: Vec<String> = Vec::new();
    let mut i: usize = 0;
    while i < flags.len()
        invariant
            0 <= i <= flags.len(),
            out.deep_view().len() == i,
            flags.deep_view().len() == flags.len(),
            forall|j: int|
                0 <= j < i ==> out.deep_view()[j] == spec_format_flag(
                    #[trigger] flags.deep_view()[j],
                    entry@,
                    file@,
                    output_dir@,
                ),
        decreases flags.len() - i,
    {
        let f: &String = &flags[i];
        proof {
            assert(flags.deep_view()[i as int] == f@);
        }
        let ghost old_out = out.deep_view();
        out.push(format_flag(f.as_str(), entry, file, output_dir));
        proof {
            assert(out.deep_view() =~= old_out.push(
                spec_format_flag(f@, entry@, file@, output_dir@),
            ));
        }
        i += 1;
    }
    out
}

} // verus!
