//! The replay path: re-run the original program with a counterexample
//! bound as its concrete input.  Replay is strictly diagnostic — the
//! verdict is already fixed when it runs — so this module only decides
//! what to invoke and under which environment; spawning is the caller's.

use vstd::prelude::*;

use crate::text::first_idx_from;

verus! {

/// The environment of a replay run: the verification cfg appended to any
/// flags already present, and the counterexample file bound for the
/// runtime to pick up.
pub fn replay_env(existing_rustflags: Option<&str>, ktest: &str) -> (r: Vec<(String, String)>)
    ensures
        r.deep_view() =~= seq![
            (
                "RUSTFLAGS"@,
                match existing_rustflags {
                    Some(e) => e@ + " --cfg=verify"@,
                    None => "--cfg=verify"@,
                },
            ),
            ("KTEST_FILE"@, ktest@),
        ],
{
    let rustflags = match existing_rustflags {
        Some(e) => String::from_str(e).concat(" --cfg=verify"),
        None => String::from_str("--cfg=verify"),
    };
    let mut out: Vec<(String, String)> = Vec::new();
    out.push((String::from_str("RUSTFLAGS"), rustflags));
    out.push((String::from_str("KTEST_FILE"), String::from_str(ktest)));
    out
}

/// The features list joined with commas, as handed to the build tool.
pub open spec fn spec_join_comma(parts: Seq<Seq<char>>) -> Seq<char>
    decreases parts.len(),
{
    if parts.len() == 0 {
        Seq::empty()
    } else if parts.len() == 1 {
        parts.first()
    } else {
        parts.first() + ","@ + spec_join_comma(parts.drop_first())
    }
}

/// Join strings with commas.
pub fn join_comma(parts: &Vec<String>) -> (r: String)
    ensures
        r@ == spec_join_comma(parts.deep_view()),
{
    let ghost ps = parts.deep_view();
    let mut out = String::new();
    if parts.len() == 0 {
        return out;
    }
    proof {
        assert(ps.skip(0) =~= ps);
    }
    let mut i: usize = 0;
    while i < parts.len()
        invariant
            ps == parts.deep_view(),
            ps.len() == parts.len(),
            ps.len() > 0,
            0 <= i <= parts.len(),
            out@ + spec_join_comma(ps.skip(i as int)) == spec_join_comma(ps) || (i == ps.len()
                && out@ == spec_join_comma(ps)),
            i < ps.len() ==> out@ + spec_join_comma(ps.skip(i as int)) == spec_join_comma(ps),
        decreases parts.len() - i,
    {
        let p: &String = &parts[i];
        proof {
            assert(ps.skip(i as int).first() == ps[i as int]);
            assert(ps[i as int] == p@);
            assert(ps.skip(i as int).drop_first() =~= ps.skip(i + 1));
        }
        out = out.concat(p.as_str());
        if i + 1 < parts.len() {
            out = out.concat(",");
        } else {
            proof {
                assert(ps.skip(i as int).len() == 1);
            }
        }
        i += 1;
    }
    out
}

/// The invocation that replays one counterexample: through the test
/// harness when the run checks tests, else a plain run of the program,
/// with the crate's features active and the program's own arguments last.
pub fn replay_command_args(
    use_test_harness: bool,
    cargo_toml: &str,
    features: &Vec<String>,
    name: &str,
    args: &Vec<String>,
) -> (r: Vec<String>)
    ensures
        r.deep_view() =~= (if use_test_harness {
            seq!["test"@, "--manifest-path"@, cargo_toml@]
                + (if features.deep_view().len() > 0 {
                seq!["--features"@, spec_join_comma(features.deep_view())]
            } else {
                Seq::empty()
            }) + seq![name@, "--"@, "--nocapture"@]
        } else {
            seq!["run"@, "--manifest-path"@, cargo_toml@]
                + (if features.deep_view().len() > 0 {
                seq!["--features"@, spec_join_comma(features.deep_view())]
            } else {
                Seq::empty()
            }) + (if args.deep_view().len() > 0 {
                seq!["--"@] + args.deep_view()
            } else {
                Seq::empty()
            })
        }),
{
    let mut out: Vec<String> = Vec::new();
    if use_test_harness {
        out.push(String::from_str("test"));
        out.push(String::from_str("--manifest-path"));
        out.push(String::from_str(cargo_toml));
        if features.len() > 0 {
            out.push(String::from_str("--features"));
            out.push(join_comma(features));
        }
        out.push(String::from_str(name));
        out.push(String::from_str("--"));
        out.push(String::from_str("--nocapture"));
    } else {
        out.push(String::from_str("run"));
        out.push(String::from_str("--manifest-path"));
        out.push(String::from_str(cargo_toml));
        if features.len() > 0 {
            out.push(String::from_str("--features"));
            out.push(join_comma(features));
        }
        if args.len() > 0 {
            out.push(String::from_str("--"));
            let mut i: usize = 0;
            let ghost before = out.deep_view();
            while i < args.len()
                invariant
                    0 <= i <= args.len(),
                    args.deep_view().len() == args.len(),
                    out.deep_view() =~= before + args.deep_view().take(i as int),
                decreases args.len() - i,
            {
                let a: &String = &args[i];
                proof {
                    assert(args.deep_view()[i as int] == a@);
                }
                let ghost old_out = out.deep_view();
                out.push(a.clone());
                proof {
                    assert(out.deep_view() =~= old_out.push(args.deep_view()[i as int]));
                    assert(old_out.push(args.deep_view()[i as int]) =~= before
                        + args.deep_view().take(i + 1));
                }
                i += 1;
            }
            proof {
                assert(args.deep_view().take(args.deep_view().len() as int) =~= args.deep_view());
            }
        }
    }
    out
}

/// The index of the last occurrence of `c` in `s`, if any.
pub open spec fn last_idx_of(s: Seq<char>, c: char) -> Option<int>
    decreases s.len(),
{
    if s.len() == 0 {
        None
    } else if s.last() == c {
        Some(s.len() - 1)
    } else {
        last_idx_of(s.drop_last(), c)
    }
}

proof fn lemma_last_idx_prefix(s: Seq<char>, c: char, k: int)
    requires
        0 <= k <= s.len(),
        forall|j: int| k <= j < s.len() ==> s[j] != c,
    ensures
        last_idx_of(s, c) == last_idx_of(s.take(k), c),
    decreases s.len() - k,
{
    if k < s.len() {
        assert(s.last() != c);
        assert(s.drop_last() =~= s.take(s.len() - 1));
        lemma_last_idx_prefix(s.take(s.len() - 1), c, k);
        assert(s.take(s.len() - 1).take(k) =~= s.take(k));
    } else {
        assert(s.take(k) =~= s);
    }
}

/// The last occurrence of `c` in `s`.
pub fn rfind_char(s: &str, c: char) -> (r: Option<usize>)
    ensures
        match r {
            Some(j) => j < s@.len() && Some(j as int) == last_idx_of(s@, c),
            None => last_idx_of(s@, c) is None,
        },
{
    let slen: usize = s.unicode_len();
    let mut i: usize = slen;
    while i > 0 && s.get_char(i - 1) != c
        invariant
            slen == s@.len(),
            0 <= i <= slen,
            forall|j: int| i <= j < slen ==> s@[j] != c,
        decreases i,
    {
        i -= 1;
    }
    proof {
        lemma_last_idx_prefix(s@, c, i as int);
    }
    if i == 0 {
        proof {
            assert(s@.take(0) =~= Seq::<char>::empty());
        }
        None
    } else {
        proof {
            assert(s@.take(i as int).last() == s@[i - 1]);
        }
        Some(i - 1)
    }
}

/// The name part of a path: everything after the last separator.
pub open spec fn spec_name_split(p: Seq<char>) -> (Seq<char>, Seq<char>) {
    match last_idx_of(p, '/') {
        Some(j) => (p.take(j + 1), p.skip(j + 1)),
        None => (Seq::empty(), p),
    }
}

/// The counterexample file that belongs to one failure report: the
/// failure's `.err` name with the error kind replaced by the `ktest`
/// extension (`test000001.abort.err` names `test000001.ktest`).
pub open spec fn spec_ktest_of_err(p: Seq<char>) -> Seq<char> {
    let parts = spec_name_split(p);
    let stem1 = match last_idx_of(parts.1, '.') {
        Some(j) => parts.1.take(j),
        None => parts.1,
    };
    let stem2 = match last_idx_of(stem1, '.') {
        Some(j) => stem1.take(j),
        None => stem1,
    };
    parts.0 + stem2 + ".ktest"@
}

/// Name the counterexample file from a failure-report path.
pub fn ktest_of_err(p: &str) -> (r: String)
    ensures
        r@ == spec_ktest_of_err(p@),
{
    let plen: usize = p.unicode_len();
    let (dir_end, name): (usize, &str) = match rfind_char(p, '/') {
        Some(j) => (j + 1, p.substring_char(j + 1, plen)),
        None => (0, p.substring_char(0, plen)),
    };
    proof {
        assert(name@ =~= spec_name_split(p@).1);
        assert(p@.take(dir_end as int) =~= spec_name_split(p@).0);
    }
    let nlen: usize = name.unicode_len();
    let stem1 = match rfind_char(name, '.') {
        Some(j) => name.substring_char(0, j),
        None => name.substring_char(0, nlen),
    };
    proof {
        assert(stem1@ =~= (match last_idx_of(name@, '.') {
            Some(j) => name@.take(j),
            None => name@,
        }));
    }
    let s1len: usize = stem1.unicode_len();
    let stem2 = match rfind_char(stem1, '.') {
        Some(j) => stem1.substring_char(0, j),
        None => stem1.substring_char(0, s1len),
    };
    proof {
        assert(stem2@ =~= (match last_idx_of(stem1@, '.') {
            Some(j) => stem1@.take(j),
            None => stem1@,
        }));
    }
    let dir = p.substring_char(0, dir_end);
    let r = String::from_str(dir).concat(stem2).concat(".ktest");
    proof {
        assert(r@ =~= spec_ktest_of_err(p@));
    }
    r
}

} // verus!
