//! The expectation extractor and the panic-line matcher.
//!
//! An instrumented program announces an expected failure by printing a
//! marker line; a later panic message is then compared against the expected
//! substring.  Both shapes are part of the wire contract with instrumented
//! programs and are recognized here by exact, character-level parsing.

use vstd::prelude::*;

use crate::text::{
    contains_seq, contains_str, find_char_from, find_str_from, first_idx_from,
    first_idx_from_ensures, first_occ_from, first_occ_from_ensures, is_space, occurs_at, prefix_of,
    str_eq, strip_prefix_str, strip_suffix_str, suffix_of,
};

verus! {

/// The expectation carried by one marker line, if the line is a marker.
///
/// A bare marker sets the expectation to the empty substring (any panic is
/// accepted); the parametrized marker carries the quoted substring.
pub open spec fn line_expectation(l: Seq<char>) -> Option<Seq<char>> {
    if l == "VERIFIER_EXPECT: should_panic"@ {
        Some(Seq::empty())
    } else if prefix_of("VERIFIER_EXPECT: should_panic(expected = \""@, l) && suffix_of(
        "\")"@,
        l.skip("VERIFIER_EXPECT: should_panic(expected = \""@.len() as int),
    ) {
        let mid = l.skip("VERIFIER_EXPECT: should_panic(expected = \""@.len() as int);
        Some(mid.take(mid.len() - "\")"@.len()))
    } else {
        None
    }
}

/// The expectation set by a whole output, scanning every line, last one wins.
pub open spec fn spec_expectation(lines: Seq<Seq<char>>) -> Option<Seq<char>>
    decreases lines.len(),
{
    if lines.len() == 0 {
        None
    } else {
        match line_expectation(lines.last()) {
            Some(e) => Some(e),
            None => spec_expectation(lines.drop_last()),
        }
    }
}

/// Scan `lines` for expectation markers; a later marker overwrites an
/// earlier one.  `None` means no failure is expected.
pub fn extract_expectation(lines: &Vec<String>) -> (r: Option<String>)
    ensures
        r.deep_view() == spec_expectation(lines.deep_view()),
{
    let ghost ls = lines.deep_view();
    let mut cur: Option<String> = None;
    let mut i: usize = 0;
    while i < lines.len()
        invariant
            ls == lines.deep_view(),
            0 <= i <= lines.len(),
            ls.len() == lines.len(),
            cur.deep_view() == spec_expectation(ls.take(i as int)),
        decreases lines.len() - i,
    {
        let l: &String = &lines[i];
        proof {
            assert(ls[i as int] == l@);
            assert(ls.take(i + 1).drop_last() =~= ls.take(i as int));
            assert(ls.take(i + 1).last() == l@);
        }
        if str_eq(l.as_str(), "VERIFIER_EXPECT: should_panic") {
            cur = Some(String::new());
            proof {
                assert(cur.deep_view() =~= Some(Seq::<char>::empty()));
            }
        } else {
            match strip_prefix_str(l.as_str(), "VERIFIER_EXPECT: should_panic(expected = \"") {
                Some(t) => {
                    match strip_suffix_str(t, "\")") {
                        Some(m) => {
                            cur = Some(String::from_str(m));
                        },
                        None => {},
                    }
                },
                None => {},
            }
        }
        i += 1;
    }
    proof {
        assert(ls.take(ls.len() as int) =~= ls);
    }
    cur
}

/// A full panic-message match attempted at position `t` of line `l`:
/// the fixed marker, then the message up to the next quote, then a comma
/// and at least one whitespace character before the source location.
/// Returns the message bounds `(start, end)` when the attempt succeeds.
pub open spec fn panic_match_at(l: Seq<char>, t: int) -> Option<(int, int)> {
    if occurs_at(l, " panicked at '"@, t) {
        let ms = t + " panicked at '"@.len();
        match first_idx_from(l, '\'', ms) {
            Some(j) => if j + 2 < l.len() && l[j + 1] == ',' && is_space(l[j + 2]) {
                Some((ms, j))
            } else {
                None
            },
            None => None,
        }
    } else {
        None
    }
}

/// The first successful panic-message match at or after position `t`.
pub open spec fn panic_match_from(l: Seq<char>, t: int) -> Option<(int, int)>
    decreases l.len() - t,
{
    if t < 0 || t >= l.len() {
        None
    } else {
        match panic_match_at(l, t) {
            Some(m) => Some(m),
            None => panic_match_from(l, t + 1),
        }
    }
}

/// The panic message carried by line `l`, if `l` is a panic line.
pub open spec fn spec_panic_message(l: Seq<char>) -> Option<Seq<char>> {
    match panic_match_from(l, 0) {
        Some(m) => Some(l.subrange(m.0, m.1)),
        None => None,
    }
}

/// A line counts as the expected panic when an expectation is set and the
/// line's panic message contains the expected substring.
pub open spec fn spec_is_expected_panic(l: Seq<char>, expect: Option<Seq<char>>) -> bool {
    match expect {
        None => false,
        Some(e) => match spec_panic_message(l) {
            Some(m) => contains_seq(m, e),
            None => false,
        },
    }
}

proof fn panic_match_from_step(l: Seq<char>, t: int, q: int)
    requires
        0 <= t <= q <= l.len(),
        forall|k: int| t <= k < q ==> panic_match_at(l, k) is None,
    ensures
        panic_match_from(l, t) == panic_match_from(l, q),
    decreases q - t,
{
    if t < q {
        panic_match_from_step(l, t + 1, q);
    }
}

proof fn panic_match_from_none(l: Seq<char>, t: int)
    requires
        0 <= t,
        forall|k: int| k >= t ==> panic_match_at(l, k) is None,
    ensures
        panic_match_from(l, t) is None,
    decreases l.len() - t,
{
    if t < l.len() {
        panic_match_from_none(l, t + 1);
    }
}

/// A line too short to hold the panic marker carries no panic message.
pub proof fn lemma_short_line_no_panic(l: Seq<char>)
    requires
        l.len() < " panicked at '"@.len(),
    ensures
        spec_panic_message(l) is None,
{
    assert forall|k: int| k >= 0 implies panic_match_at(l, k) is None by {
        assert(!occurs_at(l, " panicked at '"@, k));
    }
    panic_match_from_none(l, 0);
}

/// Extract the panic message from `l`, when `l` has the panic-line shape.
pub fn panic_message<'a>(l: &'a str) -> (r: Option<&'a str>)
    ensures
        r.deep_view() == spec_panic_message(l@),
{
    let slen: usize = l.unicode_len();
    let patlen: usize = " panicked at '".unicode_len();
    let mut t: usize = 0;
    loop
        invariant
            slen == l@.len(),
            patlen == " panicked at '"@.len(),
            0 <= t <= slen,
            panic_match_from(l@, 0) == panic_match_from(l@, t as int),
        decreases slen - t,
    {
        match find_str_from(l, " panicked at '", t) {
            None => {
                proof {
                    first_occ_from_ensures(l@, " panicked at '"@, t as int);
                    panic_match_from_none(l@, t as int);
                }
                return None;
            },
            Some(q) => {
                proof {
                    first_occ_from_ensures(l@, " panicked at '"@, t as int);
                    assert forall|k: int| t <= k < q implies panic_match_at(l@, k) is None by {
                        assert(!occurs_at(l@, " panicked at '"@, k));
                    }
                    panic_match_from_step(l@, t as int, q as int);
                }
                let ms: usize = q + patlen;
                match find_char_from(l, '\'', ms) {
                    None => {
                        proof {
                            first_idx_from_ensures(l@, '\'', ms as int);
                            assert forall|k: int| k >= q implies panic_match_at(l@, k) is None by {
                                if occurs_at(l@, " panicked at '"@, k) {
                                    let ks = k + " panicked at '"@.len();
                                    first_idx_from_ensures(l@, '\'', ks);
                                    match first_idx_from(l@, '\'', ks) {
                                        Some(j) => {
                                            assert(l@[j] == '\'');
                                        },
                                        None => {},
                                    }
                                }
                            }
                            panic_match_from_none(l@, q as int);
                        }
                        return None;
                    },
                    Some(j) => {
                        let ok: bool = j < slen && slen - j > 2 && l.get_char(j + 1) == ','
                            && is_space_char(l.get_char(j + 2));
                        if ok {
                            proof {
                                first_idx_from_ensures(l@, '\'', ms as int);
                                assert(panic_match_at(l@, q as int) == Some(
                                    (ms as int, j as int),
                                ));
                            }
                            let m = l.substring_char(ms, j);
                            return Some(m);
                        } else {
                            proof {
                                assert(panic_match_at(l@, q as int) is None);
                            }
                            t = q + 1;
                        }
                    },
                }
            },
        }
    }
}

/// Exec mirror of `is_space`.
pub fn is_space_char(c: char) -> (r: bool)
    ensures
        r == is_space(c),
{
    c == ' ' || c == '\t' || c == '\r' || c == '\n'
}

/// Does `line` carry the panic message expected by `expect`?
pub fn is_expected_panic(line: &str, expect: &Option<String>) -> (r: bool)
    ensures
        r == spec_is_expected_panic(line@, expect.deep_view()),
{
    match expect {
        None => false,
        Some(e) => {
            match panic_message(line) {
                Some(m) => contains_str(m, e.as_str()),
                None => false,
            }
        },
    }
}

/// The marker line announcing an expected failure: a bare marker when any
/// panic is accepted, else the parametrized marker quoting the substring.
pub fn expect(msg: Option<&str>) -> (r: String)
    ensures
        r@ == match msg {
            None => "VERIFIER_EXPECT: should_panic"@,
            Some(m) => "VERIFIER_EXPECT: should_panic(expected = \""@ + m@ + "\")"@,
        },
{
    match msg {
        None => String::from_str("VERIFIER_EXPECT: should_panic"),
        Some(m) => String::from_str("VERIFIER_EXPECT: should_panic(expected = \"").concat(
            m,
        ).concat("\")"),
    }
}

/// The raw marker line carrying an arbitrary declaration.
pub fn expect_raw(msg: &str) -> (r: String)
    ensures
        r@ == "VERIFIER_EXPECT: "@ + msg@,
{
    String::from_str("VERIFIER_EXPECT: ").concat(msg)
}

/// A marker emitted by `expect(Some(m))` is read back as exactly `m`:
/// the extractor and the emitter agree on the wire format.
pub proof fn lemma_expect_marker_round_trip(m: Seq<char>)
    ensures
        line_expectation(
            "VERIFIER_EXPECT: should_panic(expected = \""@ + m + "\")"@,
        ) == Some(m),
{
    reveal_strlit("VERIFIER_EXPECT: should_panic");
    reveal_strlit("VERIFIER_EXPECT: should_panic(expected = \"");
    reveal_strlit("\")");
    let pre = "VERIFIER_EXPECT: should_panic(expected = \""@;
    let suf = "\")"@;
    let l = pre + m + suf;
    assert(l.len() == pre.len() + m.len() + suf.len());
    assert(l != "VERIFIER_EXPECT: should_panic"@);
    assert(l.subrange(0, pre.len() as int) =~= pre);
    let mid = l.skip(pre.len() as int);
    assert(mid =~= m + suf);
    assert(mid.subrange(mid.len() - suf.len(), mid.len() as int) =~= suf);
    assert(mid.take(mid.len() - suf.len()) =~= m);
}

/// A bare marker is read back as the empty expected substring.
pub proof fn lemma_expect_bare_round_trip()
    ensures
        line_expectation("VERIFIER_EXPECT: should_panic"@) == Some(Seq::<char>::empty()),
{
}

} // verus!
