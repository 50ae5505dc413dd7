//! Rendering of commands into a replayable shell script.
//!
//! When asked, the tool records every command it runs — working
//! directory, environment and arguments — as a script block.  Two jobs may
//! interleave their records, but one record is always written whole; the
//! rendering here produces exactly one record's text.

use vstd::prelude::*;

verus! {

/// What the shell-quoting of one word is.  The quoted form depends on the
/// word alone.
pub uninterp spec fn escaped_of(s: Seq<char>) -> Seq<char>;

/// Relies on `shell_escape::unix::escape`: quotes a word so that a POSIX
/// shell reads it back verbatim, a pure function of the word.  (The
/// crate's platform-dispatching entry point is not used: on another host
/// it consults the environment, and these records are POSIX scripts.)
#[verifier::external_body]
fn shell_escape_str(s: &str) -> (r: String)
    ensures
        r@ == escaped_of(s@),
{
    shell_escape::unix::escape(std::borrow::Cow::from(s)).into_owned()
}

/// The escaped arguments, each preceded by one space.
pub open spec fn spec_args_tail(args: Seq<Seq<char>>) -> Seq<char>
    decreases args.len(),
{
    if args.len() == 0 {
        Seq::empty()
    } else {
        " "@ + escaped_of(args.first()) + spec_args_tail(args.drop_first())
    }
}

/// One command line: the escaped program followed by its escaped
/// arguments, space-separated.
pub open spec fn spec_command_line(program: Seq<char>, args: Seq<Seq<char>>) -> Seq<char> {
    escaped_of(program) + spec_args_tail(args)
}

/// Render a program and its arguments as one shell-quoted command line.
pub fn render_command_line(program: &str, args: &Vec<String>) -> (r: String)
    ensures
        r@ == spec_command_line(program@, args.deep_view()),
{
    let ghost az = args.deep_view();
    let mut out = shell_escape_str(program);
    proof {
        assert(az.skip(0) =~= az);
    }
    let mut i: usize = 0;
    while i < args.len()
        invariant
            az == args.deep_view(),
            az.len() == args.len(),
            0 <= i <= args.len(),
            out@ + spec_args_tail(az.skip(i as int)) == spec_command_line(program@, az),
        decreases args.len() - i,
    {
        let a: &String = &args[i];
        proof {
            assert(az.skip(i as int).first() == az[i as int]);
            assert(az[i as int] == a@);
            assert(az.skip(i as int).drop_first() =~= az.skip(i + 1));
        }
        out = out.concat(" ");
        out = out.concat(shell_escape_str(a.as_str()).as_str());
        i += 1;
    }
    proof {
        assert(az.skip(az.len() as int) =~= Seq::<Seq<char>>::empty());
        assert(out@ + Seq::<char>::empty() =~= out@);
    }
    out
}

/// The `export` lines of one record, one per environment variable.
pub open spec fn spec_env_exports(envs: Seq<(Seq<char>, Seq<char>)>) -> Seq<char>
    decreases envs.len(),
{
    if envs.len() == 0 {
        Seq::empty()
    } else {
        "    export "@ + envs.first().0 + "='"@ + envs.first().1 + "'\n"@ + spec_env_exports(
            envs.drop_first(),
        )
    }
}

/// One script record.  A command with a working directory or environment
/// runs in a parenthesized subshell so that neither outlives the record;
/// a bare command is written as a single line.
pub open spec fn spec_script_record(
    cd: Option<Seq<char>>,
    envs: Seq<(Seq<char>, Seq<char>)>,
    cmd: Seq<char>,
) -> Seq<char> {
    if cd is Some || envs.len() > 0 {
        "(\n"@ + (match cd {
            Some(d) => "    cd '"@ + d + "'\n"@,
            None => Seq::empty(),
        }) + spec_env_exports(envs) + "    "@ + cmd + "\n"@ + ")\n"@
    } else {
        cmd + "\n"@
    }
}

/// Render one record of the command script: the optional working
/// directory, the exported environment, and the command line itself.
pub fn render_script_record(
    cd: Option<&str>,
    envs: &Vec<(String, String)>,
    cmd_line: &str,
) -> (r: String)
    ensures
        r@ == spec_script_record(
            match cd {
                Some(d) => Some(d@),
                None => None,
            },
            envs.deep_view(),
            cmd_line@,
        ),
{
    let ghost es = envs.deep_view();
    if cd.is_none() && envs.len() == 0 {
        proof {
            assert(es.len() == 0);
        }
        return String::from_str(cmd_line).concat("\n");
    }
    let mut out = String::from_str("(\n");
    match cd {
        Some(d) => {
            out = out.concat("    cd '").concat(d).concat("'\n");
        },
        None => {},
    }
    proof {
        assert(es.skip(0) =~= es);
    }
    let ghost head = out@;
    let mut i: usize = 0;
    while i < envs.len()
        invariant
            es == envs.deep_view(),
            es.len() == envs.len(),
            0 <= i <= envs.len(),
            out@ + spec_env_exports(es.skip(i as int)) == head + spec_env_exports(es),
        decreases envs.len() - i,
    {
        let e: &(String, String) = &envs[i];
        proof {
            assert(es.skip(i as int).first() == es[i as int]);
            assert(es[i as int] == (e.0@, e.1@));
            assert(es.skip(i as int).drop_first() =~= es.skip(i + 1));
        }
        out = out.concat("    export ").concat(e.0.as_str()).concat("='").concat(
            e.1.as_str(),
        ).concat("'\n");
        i += 1;
    }
    proof {
        assert(es.skip(es.len() as int) =~= Seq::<(Seq<char>, Seq<char>)>::empty());
        assert(out@ =~= head + spec_env_exports(es));
    }
    out = out.concat("    ").concat(cmd_line).concat("\n").concat(")\n");
    proof {
        assert(out@ =~= spec_script_record(
            match cd {
                Some(d) => Some(d@),
                None => None,
            },
            es,
            cmd_line@,
        ));
    }
    out
}

} // verus!
