//! The decision logic of the build-and-inspect helpers: parsing the
//! output of the symbol lister, the test lister and the toolchain query,
//! naming resolved symbols, and assembling the build environment.
//! Running those external commands is the caller's business; only their
//! captured text comes here.

use core::fmt::Write;
use vstd::prelude::*;

use crate::backend::Backend;
use crate::text::{
    find_char_from, first_idx_from, first_idx_from_ensures, is_space, prefix_of, spec_trim,
    str_eq, starts_with_str, strip_prefix_str, strip_suffix_str, suffix_of, trim_str,
};

verus! {

/// What one character of a package name becomes: letters, digits and the
/// underscore are kept, anything else becomes an underscore.
pub open spec fn spec_sanitize_char(c: char) -> char {
    if ('a' <= c && c <= 'z') || ('A' <= c && c <= 'Z') || ('0' <= c && c <= '9') || c == '_' {
        c
    } else {
        '_'
    }
}

/// A package name reduced to identifier characters, so that it can be
/// matched against symbol names.
pub fn sanitize_package_name(s: &str) -> (r: String)
    ensures
        r@.len() == s@.len(),
        forall|i: int| 0 <= i < s@.len() ==> r@[i] == spec_sanitize_char(s@[i]),
{
    let n: usize = s.unicode_len();
    let mut out: String = String::new();
    let mut i: usize = 0;
    while i < n
        invariant
            n == s@.len(),
            0 <= i <= n,
            out@.len() == i,
            forall|j: int| 0 <= j < i ==> out@[j] == spec_sanitize_char(s@[j]),
        decreases n - i,
    {
        let c: char = s.get_char(i);
        if (c >= 'a' && c <= 'z') || (c >= 'A' && c <= 'Z') || (c >= '0' && c <= '9') || c == '_' {
            out.push(c);
        } else {
            out.push('_');
        }
        i += 1;
    }
    out
}

/// The default host, as reported by a line `Default host: <triple>`.
pub open spec fn spec_default_host(ls: Seq<Seq<char>>) -> Option<Seq<char>>
    decreases ls.len(),
{
    if ls.len() == 0 {
        None
    } else if prefix_of("Default host:"@, ls.first()) {
        Some(spec_trim(ls.first().skip("Default host:"@.len() as int)))
    } else {
        spec_default_host(ls.drop_first())
    }
}

/// Find the first `Default host:` line and hand back the trimmed triple.
pub fn parse_default_host(lines: &Vec<String>) -> (r: Option<String>)
    ensures
        r.deep_view() == spec_default_host(lines.deep_view()),
{
    let ghost ls = lines.deep_view();
    proof {
        assert(ls.skip(0) =~= ls);
    }
    let mut i: usize = 0;
    while i < lines.len()
        invariant
            ls == lines.deep_view(),
            ls.len() == lines.len(),
            0 <= i <= lines.len(),
            spec_default_host(ls) == spec_default_host(ls.skip(i as int)),
        decreases lines.len() - i,
    {
        let l: &String = &lines[i];
        proof {
            assert(ls.skip(i as int).first() == ls[i as int]);
            assert(ls[i as int] == l@);
        }
        match strip_prefix_str(l.as_str(), "Default host:") {
            Some(rest) => {
                let t = trim_str(rest);
                return Some(String::from_str(t));
            },
            None => {
                proof {
                    assert(ls.skip(i as int).drop_first() =~= ls.skip(i + 1));
                }
            },
        }
        i += 1;
    }
    proof {
        assert(ls.skip(ls.len() as int) =~= Seq::<Seq<char>>::empty());
    }
    None
}

/// The three space-separated fields of a symbol-table line, when the line
/// has exactly three.
pub open spec fn nm_fields(l: Seq<char>) -> Option<(Seq<char>, Seq<char>, Seq<char>)> {
    match first_idx_from(l, ' ', 0) {
        Some(i) => match first_idx_from(l, ' ', i + 1) {
            Some(j) => if first_idx_from(l, ' ', j + 1) is None {
                Some((l.take(i), l.subrange(i + 1, j), l.skip(j + 1)))
            } else {
                None
            },
            None => None,
        },
        None => None,
    }
}

/// Split a symbol-table line into its three fields, if it has exactly
/// three.
pub fn nm_line_fields(l: &str) -> (r: Option<(String, String, String)>)
    ensures
        r.deep_view() == nm_fields(l@),
{
    let n: usize = l.unicode_len();
    match find_char_from(l, ' ', 0) {
        Some(i) => {
            proof {
                first_idx_from_ensures(l@, ' ', 0);
            }
            match find_char_from(l, ' ', i + 1) {
                Some(j) => {
                    proof {
                        first_idx_from_ensures(l@, ' ', i + 1);
                    }
                    match find_char_from(l, ' ', j + 1) {
                        Some(_) => None,
                        None => {
                            proof {
                                first_idx_from_ensures(l@, ' ', 0);
                                first_idx_from_ensures(l@, ' ', i + 1);
                            }
                            let a = l.substring_char(0, i);
                            let b = l.substring_char(i + 1, j);
                            let c = l.substring_char(j + 1, n);
                            proof {
                                assert(a@ =~= l@.take(i as int));
                                assert(b@ =~= l@.subrange(i + 1, j as int));
                                assert(c@ =~= l@.skip(j + 1));
                            }
                            Some((String::from_str(a), String::from_str(b), String::from_str(c)))
                        },
                    }
                },
                None => None,
            }
        },
        None => None,
    }
}

/// Does the list hold this character sequence?
pub fn vec_contains_str(v: &Vec<String>, s: &str) -> (r: bool)
    ensures
        r == v.deep_view().contains(s@),
{
    let ghost vs = v.deep_view();
    let mut i: usize = 0;
    while i < v.len()
        invariant
            vs == v.deep_view(),
            vs.len() == v.len(),
            0 <= i <= v.len(),
            forall|j: int| 0 <= j < i ==> vs[j] != s@,
        decreases v.len() - i,
    {
        let e: &String = &v[i];
        proof {
            assert(vs[i as int] == e@);
        }
        if str_eq(e.as_str(), s) {
            proof {
                assert(vs[i as int] == s@);
            }
            return true;
        }
        i += 1;
    }
    proof {
        if vs.contains(s@) {
            let k = choose|k: int| 0 <= k < vs.len() && vs[k] == s@;
        }
    }
    false
}

/// Is this line a defined-text-symbol entry (`T`) for one of `names`?
pub open spec fn counts_symbol(l: Seq<char>, names: Seq<Seq<char>>) -> bool {
    match nm_fields(l) {
        Some(f) => f.1 == "T"@ && names.contains(f.2),
        None => false,
    }
}

/// How many lines list a defined `T` symbol from `names`.
pub open spec fn spec_count_symbols(ls: Seq<Seq<char>>, names: Seq<Seq<char>>) -> nat
    decreases ls.len(),
{
    if ls.len() == 0 {
        0
    } else {
        spec_count_symbols(ls.drop_last(), names) + if counts_symbol(ls.last(), names) {
            1nat
        } else {
            0nat
        }
    }
}

/// Count, over a symbol lister's output, the defined text symbols whose
/// name is one of `names`.
pub fn count_defined_symbols(lines: &Vec<String>, names: &Vec<String>) -> (r: usize)
    ensures
        r == spec_count_symbols(lines.deep_view(), names.deep_view()),
{
    let ghost ls = lines.deep_view();
    let ghost ns = names.deep_view();
    let mut count: usize = 0;
    let mut i: usize = 0;
    while i < lines.len()
        invariant
            ls == lines.deep_view(),
            ns == names.deep_view(),
            ls.len() == lines.len(),
            0 <= i <= lines.len(),
            count <= i,
            count == spec_count_symbols(ls.take(i as int), ns),
        decreases lines.len() - i,
    {
        let l: &String = &lines[i];
        proof {
            assert(ls.take(i + 1).drop_last() =~= ls.take(i as int));
            assert(ls.take(i + 1).last() == ls[i as int]);
            assert(ls[i as int] == l@);
        }
        match nm_line_fields(l.as_str()) {
            Some(f) => {
                if str_eq(f.1.as_str(), "T") && vec_contains_str(names, f.2.as_str()) {
                    count += 1;
                }
            },
            None => {},
        }
        i += 1;
    }
    proof {
        assert(ls.take(ls.len() as int) =~= ls);
    }
    count
}

/// What the demangler makes of one mangled symbol, in its hash-free
/// (alternate) form.  The result depends on the symbol alone.
pub uninterp spec fn demangled_of(s: Seq<char>) -> Seq<char>;

/// Relies on `rustc_demangle::demangle`: formatting its result in the
/// alternate form yields the demangled name without the trailing hash,
/// a pure function of the symbol text.  A formatter error (possible for
/// a pathological symbol) deterministically leaves the text written so
/// far, rather than aborting.
#[verifier::external_body]
fn demangle_symbol(s: &str) -> (r: String)
    ensures
        r@ == demangled_of(s@),
{
    let mut out = String::new();
    match write!(out, "{:#}", rustc_demangle::demangle(s)) {
        _ => out,
    }
}

/// The `(demangled, mangled)` pair contributed by one symbol-table line:
/// a defined text symbol (`t` or `T`) in Rust mangling (`_ZN`, or the
/// doubly-underscored `__ZN` some hosts show, whose extra underscore is
/// dropped), whose demangled name is one of the requested `names`.
pub open spec fn line_symbol_pair(l: Seq<char>, names: Seq<Seq<char>>) -> Option<
    (Seq<char>, Seq<char>),
> {
    match nm_fields(l) {
        Some(f) => if (f.1 == "t"@ || f.1 == "T"@) && (prefix_of("__ZN"@, f.2) || prefix_of(
            "_ZN"@,
            f.2,
        )) {
            let mangled = if prefix_of("__ZN"@, f.2) {
                f.2.skip(1)
            } else {
                f.2
            };
            let dname = demangled_of(mangled);
            if names.contains(dname) {
                Some((dname, mangled))
            } else {
                None
            }
        } else {
            None
        },
        None => None,
    }
}

/// All pairs contributed by the lister's output, in line order.
pub open spec fn spec_symbol_pairs(ls: Seq<Seq<char>>, names: Seq<Seq<char>>) -> Seq<
    (Seq<char>, Seq<char>),
>
    decreases ls.len(),
{
    if ls.len() == 0 {
        Seq::empty()
    } else {
        match line_symbol_pair(ls.first(), names) {
            Some(p) => seq![p] + spec_symbol_pairs(ls.drop_first(), names),
            None => spec_symbol_pairs(ls.drop_first(), names),
        }
    }
}

/// Match the requested (already demangled) `names` against the defined
/// symbols listed in `lines`, pairing each hit with its mangled form.
/// When fewer pairs are found than names were requested, the number of
/// missing names is the error.
pub fn match_symbols(lines: &Vec<String>, names: &Vec<String>) -> (r: Result<
    Vec<(String, String)>,
    usize,
>)
    ensures
        ({
            let pairs = spec_symbol_pairs(lines.deep_view(), names.deep_view());
            match r {
                Ok(ps) => ps.deep_view() == pairs && pairs.len() >= names.deep_view().len(),
                Err(m) => pairs.len() < names.deep_view().len() && m == names.deep_view().len()
                    - pairs.len(),
            }
        }),
{
    let ghost ls = lines.deep_view();
    let ghost ns = names.deep_view();
    let mut out: Vec<(String, String)> = Vec::new();
    proof {
        assert(ls.skip(0) =~= ls);
        assert(out.deep_view() =~= Seq::<(Seq<char>, Seq<char>)>::empty());
        assert(out.deep_view() + spec_symbol_pairs(ls, ns) =~= spec_symbol_pairs(ls, ns));
    }
    let mut i: usize = 0;
    while i < lines.len()
        invariant
            ls == lines.deep_view(),
            ns == names.deep_view(),
            ls.len() == lines.len(),
            0 <= i <= lines.len(),
            spec_symbol_pairs(ls, ns) == out.deep_view() + spec_symbol_pairs(
                ls.skip(i as int),
                ns,
            ),
        decreases lines.len() - i,
    {
        let l: &String = &lines[i];
        proof {
            assert(ls.skip(i as int).first() == ls[i as int]);
            assert(ls[i as int] == l@);
            assert(ls.skip(i as int).drop_first() =~= ls.skip(i + 1));
        }
        match nm_line_fields(l.as_str()) {
            Some(f) => {
                let is_text = str_eq(f.1.as_str(), "t") || str_eq(f.1.as_str(), "T");
                if is_text {
                    let sym: &String = &f.2;
                    let mangled: Option<String> = if starts_with_str(sym.as_str(), "__ZN") {
                        let n: usize = sym.as_str().unicode_len();
                        proof {
                            reveal_strlit("__ZN");
                        }
                        let t = sym.as_str().substring_char(1, n);
                        proof {
                            assert(t@ =~= sym@.skip(1));
                        }
                        Some(String::from_str(t))
                    } else if starts_with_str(sym.as_str(), "_ZN") {
                        Some(sym.clone())
                    } else {
                        None
                    };
                    match mangled {
                        Some(m) => {
                            let dname = demangle_symbol(m.as_str());
                            if vec_contains_str(names, dname.as_str()) {
                                let ghost old_out = out.deep_view();
                                proof {
                                    assert(line_symbol_pair(ls[i as int], ns) == Some(
                                        (dname@, m@),
                                    ));
                                }
                                out.push((dname, m));
                                proof {
                                    assert(out.deep_view() =~= old_out.push(
                                        line_symbol_pair(ls[i as int], ns).unwrap(),
                                    ));
                                    assert(out.deep_view() + spec_symbol_pairs(ls.skip(i + 1), ns)
                                        =~= old_out + spec_symbol_pairs(ls.skip(i as int), ns));
                                }
                            } else {
                                proof {
                                    assert(line_symbol_pair(ls[i as int], ns) is None);
                                }
                            }
                        },
                        None => {
                            proof {
                                assert(line_symbol_pair(ls[i as int], ns) is None);
                            }
                        },
                    }
                } else {
                    proof {
                        assert(line_symbol_pair(ls[i as int], ns) is None);
                    }
                }
            },
            None => {},
        }
        i += 1;
    }
    proof {
        assert(ls.skip(ls.len() as int) =~= Seq::<Seq<char>>::empty());
        assert(out.deep_view() =~= spec_symbol_pairs(ls, ns));
    }
    if out.len() >= names.len() {
        Ok(out)
    } else {
        Err(names.len() - out.len())
    }
}

/// `path` with its final name component replaced by `name`.
pub fn with_file_name(path: &str, name: &str) -> (r: String)
    ensures
        r@ == crate::replay::spec_name_split(path@).0 + name@,
{
    let plen: usize = path.unicode_len();
    let dir = match crate::replay::rfind_char(path, '/') {
        Some(j) => path.substring_char(0, j + 1),
        None => path.substring_char(0, 0),
    };
    proof {
        assert(dir@ =~= crate::replay::spec_name_split(path@).0);
    }
    String::from_str(dir).concat(name)
}

/// `dir` and `name` joined with a path separator.
pub fn path_join(dir: &str, name: &str) -> (r: String)
    ensures
        r@ == dir@ + "/"@ + name@,
{
    String::from_str(dir).concat("/").concat(name)
}

/// Does the path's file name hold exactly one dot?  The freshly built
/// bitcode file does; the patched files derived from it gain more.
pub fn file_name_has_single_dot(p: &str) -> (r: bool)
    ensures
        r == (crate::text::spec_split_char(
            crate::replay::spec_name_split(p@).1,
            '.',
        ).len() == 2),
{
    let plen: usize = p.unicode_len();
    let name = match crate::replay::rfind_char(p, '/') {
        Some(j) => p.substring_char(j + 1, plen),
        None => p.substring_char(0, plen),
    };
    proof {
        assert(name@ =~= crate::replay::spec_name_split(p@).1);
    }
    let parts = crate::text::split_char(name, '.');
    parts.len() == 2
}

/// Which compiled bitcode file carries the program: there must be
/// exactly one candidate, and both kinds of ambiguity are setup errors
/// that fail the run before any job starts.
pub fn select_bitcode_file(files: Vec<String>, tests_mode: bool, package: &str) -> (r: Result<
    String,
    String,
>)
    ensures
        ({
            let fs = files.deep_view();
            match r {
                Ok(f) => fs.len() == 1 && f@ == fs[0],
                Err(e) => fs.len() != 1 && e@ == (if fs.len() == 0 {
                    if tests_mode {
                        "  FAILED: Use --tests with library crates"@
                    } else {
                        "  FAILED: Test "@ + package@
                            + " unable to find the right bitcode file - should you have used --tests?"@
                    }
                } else {
                    "  FAILED: Test "@ + package@ + " compilation error"@
                }),
            }
        }),
{
    let mut files = files;
    if files.len() == 1 {
        let ghost fs = files.deep_view();
        match files.pop() {
            Some(f) => {
                proof {
                    assert(f@ == fs[0]);
                }
                Ok(f)
            },
            None => vstd::pervasive::unreached(),
        }
    } else if files.len() == 0 {
        if tests_mode {
            Err(String::from_str("  FAILED: Use --tests with library crates"))
        } else {
            Err(
                String::from_str("  FAILED: Test ").concat(package).concat(
                    " unable to find the right bitcode file - should you have used --tests?",
                ),
            )
        }
    } else {
        Err(String::from_str("  FAILED: Test ").concat(package).concat(" compilation error"))
    }
}

/// The run of non-whitespace characters at the end of `s`.
pub open spec fn spec_token_suffix(s: Seq<char>) -> Seq<char>
    decreases s.len(),
{
    if s.len() > 0 && !is_space(s.last()) {
        spec_token_suffix(s.drop_last()).push(s.last())
    } else {
        Seq::empty()
    }
}

proof fn lemma_token_suffix_skip(s: Seq<char>, m: int)
    requires
        0 <= m <= s.len(),
        forall|j: int| m <= j < s.len() ==> !is_space(s[j]),
        m > 0 ==> is_space(s[m - 1]),
    ensures
        spec_token_suffix(s) == s.skip(m),
    decreases s.len() - m,
{
    if m == s.len() {
        if s.len() > 0 {
            assert(is_space(s.last()));
        }
        assert(s.skip(m) =~= Seq::<char>::empty());
    } else {
        assert(!is_space(s.last()));
        assert(s.drop_last() =~= s.take(s.len() - 1));
        lemma_token_suffix_skip(s.take(s.len() - 1), m);
        assert(s.take(s.len() - 1).skip(m).push(s.last()) =~= s.skip(m));
    }
}

/// The test name carried by one line of the harness's `--list` output:
/// the line's final word must be `test`, separated by whitespace from a
/// token ending in a colon; the token without that colon is the name.
pub open spec fn spec_test_entry(l: Seq<char>) -> Option<Seq<char>> {
    let t = spec_trim(l);
    if suffix_of("test"@, t) {
        let t2 = t.take(t.len() - "test"@.len());
        if t2.len() > 0 && is_space(t2.last()) {
            let t3 = spec_trim(t2);
            if t3.len() > 0 && t3.last() == ':' {
                let tok = spec_token_suffix(t3.take(t3.len() - 1));
                if tok.len() > 0 {
                    Some(tok)
                } else {
                    None
                }
            } else {
                None
            }
        } else {
            None
        }
    } else {
        None
    }
}

/// Extract the test name from one `--list` output line, if it names one.
pub fn test_list_entry(l: &str) -> (r: Option<String>)
    ensures
        r.deep_view() == spec_test_entry(l@),
{
    let t = trim_str(l);
    match strip_suffix_str(t, "test") {
        None => None,
        Some(t2) => {
            let n2: usize = t2.unicode_len();
            if n2 == 0 {
                return None;
            }
            if !crate::expect::is_space_char(t2.get_char(n2 - 1)) {
                return None;
            }
            let t3 = trim_str(t2);
            proof {
                assert(t2@ == spec_trim(l@).take(
                    spec_trim(l@).len() - "test"@.len(),
                ));
            }
            let n3: usize = t3.unicode_len();
            if n3 == 0 {
                return None;
            }
            if t3.get_char(n3 - 1) != ':' {
                return None;
            }
            let body = t3.substring_char(0, n3 - 1);
            proof {
                assert(body@ =~= t3@.take(t3@.len() - 1));
            }
            let blen: usize = body.unicode_len();
            let mut m: usize = blen;
            while m > 0 && !crate::expect::is_space_char(body.get_char(m - 1))
                invariant
                    blen == body@.len(),
                    0 <= m <= blen,
                    forall|j: int| m <= j < blen ==> !is_space(body@[j]),
                decreases m,
            {
                m -= 1;
            }
            proof {
                lemma_token_suffix_skip(body@, m as int);
            }
            if m == blen {
                proof {
                    assert(body@.skip(blen as int) =~= Seq::<char>::empty());
                }
                None
            } else {
                let tok = body.substring_char(m, blen);
                proof {
                    assert(tok@ =~= body@.skip(m as int));
                }
                Some(String::from_str(tok))
            }
        },
    }
}

/// Every test name announced by the harness's `--list` output, in order.
pub open spec fn spec_test_list(ls: Seq<Seq<char>>) -> Seq<Seq<char>>
    decreases ls.len(),
{
    if ls.len() == 0 {
        Seq::empty()
    } else {
        match spec_test_entry(ls.first()) {
            Some(t) => seq![t] + spec_test_list(ls.drop_first()),
            None => spec_test_list(ls.drop_first()),
        }
    }
}

/// Collect the test names from the harness's `--list` output.
pub fn parse_test_list(lines: &Vec<String>) -> (r: Vec<String>)
    ensures
        r.deep_view() == spec_test_list(lines.deep_view()),
{
    let ghost ls = lines.deep_view();
    let mut out: Vec<String> = Vec::new();
    proof {
        assert(ls.skip(0) =~= ls);
        assert(out.deep_view() + spec_test_list(ls) =~= spec_test_list(ls));
    }
    let mut i: usize = 0;
    while i < lines.len()
        invariant
            ls == lines.deep_view(),
            ls.len() == lines.len(),
            0 <= i <= lines.len(),
            spec_test_list(ls) == out.deep_view() + spec_test_list(ls.skip(i as int)),
        decreases lines.len() - i,
    {
        let l: &String = &lines[i];
        proof {
            assert(ls.skip(i as int).first() == ls[i as int]);
            assert(ls[i as int] == l@);
            assert(ls.skip(i as int).drop_first() =~= ls.skip(i + 1));
        }
        match test_list_entry(l.as_str()) {
            Some(t) => {
                let ghost old_out = out.deep_view();
                out.push(t);
                proof {
                    assert(out.deep_view() =~= old_out.push(spec_test_entry(ls[i as int]).unwrap()));
                    assert(out.deep_view() + spec_test_list(ls.skip(i + 1)) =~= old_out
                        + spec_test_list(ls.skip(i as int)));
                }
            },
            None => {},
        }
        i += 1;
    }
    proof {
        assert(ls.skip(ls.len() as int) =~= Seq::<Seq<char>>::empty());
        assert(out.deep_view() =~= spec_test_list(ls));
    }
    out
}

/// The character for one decimal digit.
pub open spec fn spec_digit(d: nat) -> char {
    if d == 0 {
        '0'
    } else if d == 1 {
        '1'
    } else if d == 2 {
        '2'
    } else if d == 3 {
        '3'
    } else if d == 4 {
        '4'
    } else if d == 5 {
        '5'
    } else if d == 6 {
        '6'
    } else if d == 7 {
        '7'
    } else if d == 8 {
        '8'
    } else {
        '9'
    }
}

/// The decimal writing of `n`, most significant digit first.
pub open spec fn spec_decimal(n: nat) -> Seq<char>
    decreases n,
{
    if n < 10 {
        seq![spec_digit(n)]
    } else {
        spec_decimal(n / 10) + seq![spec_digit(n % 10)]
    }
}

fn digit_char(d: usize) -> (r: char)
    requires
        d < 10,
    ensures
        r == spec_digit(d as nat),
{
    if d == 0 {
        '0'
    } else if d == 1 {
        '1'
    } else if d == 2 {
        '2'
    } else if d == 3 {
        '3'
    } else if d == 4 {
        '4'
    } else if d == 5 {
        '5'
    } else if d == 6 {
        '6'
    } else if d == 7 {
        '7'
    } else if d == 8 {
        '8'
    } else {
        '9'
    }
}

/// Write `n` in decimal.
pub fn decimal_string(n: usize) -> (r: String)
    ensures
        r@ == spec_decimal(n as nat),
{
    if n == 0 {
        proof {
            reveal_strlit("0");
            assert("0"@ =~= spec_decimal(0));
        }
        return String::from_str("0");
    }
    let mut digits: Vec<char> = Vec::new();
    let mut m: usize = n;
    proof {
        assert(spec_decimal(n as nat) + digits@.reverse() =~= spec_decimal(n as nat));
    }
    while m > 0
        invariant
            spec_decimal(n as nat) == (if m > 0 {
                spec_decimal(m as nat) + digits@.reverse()
            } else {
                digits@.reverse()
            }),
        decreases m,
    {
        let d: usize = m % 10;
        let ghost old_digits = digits@;
        let ghost old_m = m as nat;
        digits.push(digit_char(d));
        let next: usize = m / 10;
        proof {
            assert(digits@.reverse() =~= seq![spec_digit((old_m % 10) as nat)]
                + old_digits.reverse());
            if old_m >= 10 {
                assert(spec_decimal(old_m) == spec_decimal(old_m / 10) + seq![
                    spec_digit(old_m % 10),
                ]);
                assert(spec_decimal((next as nat)) + digits@.reverse() =~= spec_decimal(old_m)
                    + old_digits.reverse());
            } else {
                assert(spec_decimal(old_m) =~= seq![spec_digit(old_m)]);
                assert(digits@.reverse() =~= spec_decimal(old_m) + old_digits.reverse());
            }
        }
        m = next;
    }
    let mut out: String = String::new();
    let mut j: usize = digits.len();
    proof {
        assert(digits@.reverse().take(0) =~= Seq::<char>::empty());
    }
    while j > 0
        invariant
            0 <= j <= digits@.len(),
            out@ == digits@.reverse().take(digits@.len() - j),
        decreases j,
    {
        out.push(digits[j - 1]);
        proof {
            assert(digits@.reverse()[digits@.len() - j] == digits@[j - 1]);
            assert(out@ =~= digits@.reverse().take(digits@.len() - (j - 1)));
        }
        j -= 1;
    }
    proof {
        assert(digits@.reverse().take(digits@.len() as int) =~= digits@.reverse());
    }
    out
}

/// The segments of a path name, each written as its length followed by
/// its text.
pub open spec fn spec_mangled_segments(parts: Seq<Seq<char>>) -> Seq<char>
    decreases parts.len(),
{
    if parts.len() == 0 {
        Seq::empty()
    } else {
        spec_decimal(parts.first().len()) + parts.first() + spec_mangled_segments(
            parts.drop_first(),
        )
    }
}

/// Apply the legacy Rust mangling rule to a path like `foo::bar`: each
/// `::`-separated segment becomes its length followed by its text, after
/// the fixed prefix.  The trailing disambiguating hash and the final
/// terminator are not added.
pub fn rust_mangle(rust_name: &str) -> (r: String)
    ensures
        r@ == "_ZN"@ + spec_mangled_segments(crate::text::spec_split_seq(rust_name@, "::"@)),
{
    proof {
        reveal_strlit("::");
    }
    let parts = crate::text::split_str(rust_name, "::");
    let ghost ps = parts.deep_view();
    let mut out: String = String::from_str("_ZN");
    proof {
        assert(ps.skip(0) =~= ps);
    }
    let mut i: usize = 0;
    while i < parts.len()
        invariant
            ps == parts.deep_view(),
            ps.len() == parts.len(),
            0 <= i <= parts.len(),
            out@ + spec_mangled_segments(ps.skip(i as int)) == "_ZN"@ + spec_mangled_segments(
                ps,
            ),
        decreases parts.len() - i,
    {
        let part: &String = &parts[i];
        proof {
            assert(ps.skip(i as int).first() == ps[i as int]);
            assert(ps[i as int] == part@);
            assert(ps.skip(i as int).drop_first() =~= ps.skip(i + 1));
        }
        let len = part.as_str().unicode_len();
        out = out.concat(decimal_string(len).as_str()).concat(part.as_str());
        i += 1;
    }
    proof {
        assert(ps.skip(ps.len() as int) =~= Seq::<Seq<char>>::empty());
        assert(out@ + Seq::<char>::empty() =~= out@);
    }
    out
}

/// The `RUSTFLAGS` value used to compile the crate for verification: the
/// fixed flag set, the toolchain-versioned linker flags, the extra KLEE
/// link flag, and any flags already present in the environment.
pub open spec fn spec_rustflags(
    llvm: Seq<char>,
    backend: Backend,
    existing: Option<Seq<char>>,
) -> Seq<char> {
    let base =
        "-Clto -Cembed-bitcode=yes --emit=llvm-bc --cfg=verify -Zpanic_abort_tests -Cpanic=abort -Warithmetic-overflow -Coverflow-checks=yes -Cno-vectorize-loops -Cno-vectorize-slp -Ctarget-feature=-sse3,-ssse3,-sse4.1,-sse4.2,-3dnow,-3dnowa,-avx,-avx2 -Clinker-plugin-lto -Clinker=clang-"@
        + llvm + " -Clink-arg=-fuse-ld=lld-"@ + llvm;
    let flags = if backend == Backend::Klee {
        base + " -Clink-arg=-Wl,--defsym=klee_is_symbolic=0"@
    } else {
        base
    };
    match existing {
        Some(e) => flags + " "@ + e,
        None => flags,
    }
}

/// The environment a verification build runs under: the `RUSTFLAGS`
/// above, plus the C toolchain settings that make build scripts emit
/// LTO-compatible objects with the versioned clang.
pub fn build_env_vars(llvm_version: &str, backend: Backend, existing_rustflags: Option<&str>) -> (r:
    Vec<(String, String)>)
    ensures
        r.deep_view() =~= seq![
            (
                "RUSTFLAGS"@,
                spec_rustflags(
                    llvm_version@,
                    backend,
                    match existing_rustflags {
                        Some(e) => Some(e@),
                        None => None,
                    },
                ),
            ),
            ("CRATE_CC_NO_DEFAULTS"@, "true"@),
            ("CFLAGS"@, "-flto=thin"@),
            ("CC"@, "clang-"@ + llvm_version@),
        ],
{
    let base = String::from_str(
        "-Clto -Cembed-bitcode=yes --emit=llvm-bc --cfg=verify -Zpanic_abort_tests -Cpanic=abort -Warithmetic-overflow -Coverflow-checks=yes -Cno-vectorize-loops -Cno-vectorize-slp -Ctarget-feature=-sse3,-ssse3,-sse4.1,-sse4.2,-3dnow,-3dnowa,-avx,-avx2 -Clinker-plugin-lto -Clinker=clang-",
    ).concat(llvm_version).concat(" -Clink-arg=-fuse-ld=lld-").concat(llvm_version);
    let flags = match backend {
        Backend::Klee => base.concat(" -Clink-arg=-Wl,--defsym=klee_is_symbolic=0"),
        _ => base,
    };
    let rustflags = match existing_rustflags {
        Some(e) => flags.concat(" ").concat(e),
        None => flags,
    };
    let mut out: Vec<(String, String)> = Vec::new();
    out.push((String::from_str("RUSTFLAGS"), rustflags));
    out.push((String::from_str("CRATE_CC_NO_DEFAULTS"), String::from_str("true")));
    out.push((String::from_str("CFLAGS"), String::from_str("-flto=thin")));
    out.push((String::from_str("CC"), String::from_str("clang-").concat(llvm_version)));
    out
}

} // verus!
