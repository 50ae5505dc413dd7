//! Character-sequence utilities used by the output classifiers.
//!
//! All executable functions here are specified against `Seq<char>` views of
//! `&str` and `String` values.

use vstd::prelude::*;

verus! {

/// The whitespace characters recognized by `spec_trim`.
pub open spec fn is_space(c: char) -> bool {
    c == ' ' || c == '\t' || c == '\r' || c == '\n'
}

/// `p` is a prefix of `s`.
pub open spec fn prefix_of(p: Seq<char>, s: Seq<char>) -> bool {
    p.len() <= s.len() && s.subrange(0, p.len() as int) == p
}

/// `p` is a suffix of `s`.
pub open spec fn suffix_of(p: Seq<char>, s: Seq<char>) -> bool {
    p.len() <= s.len() && s.subrange(s.len() - p.len(), s.len() as int) == p
}

/// `p` occurs in `s` starting at index `i`.
pub open spec fn occurs_at(s: Seq<char>, p: Seq<char>, i: int) -> bool {
    0 <= i && i + p.len() <= s.len() && s.subrange(i, i + p.len()) == p
}

/// `p` occurs somewhere in `s`.
pub open spec fn contains_seq(s: Seq<char>, p: Seq<char>) -> bool {
    exists|i: int| occurs_at(s, p, i)
}

/// The least index `>= i` at which `p` occurs in `s`, if any.
pub open spec fn first_occ_from(s: Seq<char>, p: Seq<char>, i: int) -> Option<int>
    decreases s.len() - i,
{
    if i < 0 {
        None
    } else if i + p.len() > s.len() {
        None
    } else if p.len() == 0 {
        Some(i)
    } else if occurs_at(s, p, i) {
        Some(i)
    } else {
        first_occ_from(s, p, i + 1)
    }
}

/// What `first_occ_from` returns: the first occurrence at or after `i`.
pub proof fn first_occ_from_ensures(s: Seq<char>, p: Seq<char>, i: int)
    requires
        0 <= i,
    ensures
        match first_occ_from(s, p, i) {
            Some(j) => i <= j && occurs_at(s, p, j) && forall|k: int|
                i <= k < j ==> !occurs_at(s, p, k),
            None => forall|k: int| k >= i ==> !occurs_at(s, p, k),
        },
    decreases s.len() - i,
{
    if i + p.len() > s.len() {
        assert forall|k: int| k >= i implies !occurs_at(s, p, k) by {
            if occurs_at(s, p, k) {
                assert(k + p.len() <= s.len());
            }
        }
    } else if p.len() == 0 {
        assert(occurs_at(s, p, i)) by {
            assert(s.subrange(i, i + p.len()) =~= p);
        }
    } else if occurs_at(s, p, i) {
    } else {
        first_occ_from_ensures(s, p, i + 1);
    }
}

/// Prefixes chain: a prefix of a prefix of `s` is a prefix of `s`.
pub proof fn lemma_prefix_of_trans(p2: Seq<char>, p1: Seq<char>, s: Seq<char>)
    requires
        prefix_of(p2, p1),
        prefix_of(p1, s),
    ensures
        prefix_of(p2, s),
{
    assert(s.subrange(0, p2.len() as int) =~= p1.subrange(0, p2.len() as int)) by {
        assert(forall|i: int|
            0 <= i < p2.len() ==> s.subrange(0, p1.len() as int)[i] == s[i]);
    }
}

/// Equality of two string slices, decided character by character.
pub fn str_eq(a: &str, b: &str) -> (r: bool)
    ensures
        r == (a@ == b@),
{
    let alen: usize = a.unicode_len();
    let blen: usize = b.unicode_len();
    if alen != blen {
        proof {
            assert(a@ != b@) by {
                if a@ == b@ {
                    assert(a@.len() == b@.len());
                }
            }
        }
        return false;
    }
    let mut i: usize = 0;
    while i < alen
        invariant
            alen == a@.len(),
            blen == b@.len(),
            alen == blen,
            0 <= i <= alen,
            forall|j: int| 0 <= j < i ==> a@[j] == b@[j],
        decreases alen - i,
    {
        if a.get_char(i) != b.get_char(i) {
            return false;
        }
        i += 1;
    }
    proof {
        assert(a@ =~= b@);
    }
    true
}

/// Does `p` occur in `s` starting at character index `i`?
fn match_at(s: &str, p: &str, i: usize) -> (r: bool)
    requires
        i + p@.len() <= s@.len(),
    ensures
        r == occurs_at(s@, p@, i as int),
{
    let slen: usize = s.unicode_len();
    let plen: usize = p.unicode_len();
    let mut j: usize = 0;
    while j < plen
        invariant
            slen == s@.len(),
            plen == p@.len(),
            i + plen <= s@.len(),
            0 <= j <= plen,
            forall|k: int| 0 <= k < j ==> s@[i + k] == p@[k],
        decreases plen - j,
    {
        if s.get_char(i + j) != p.get_char(j) {
            proof {
                assert(!occurs_at(s@, p@, i as int)) by {
                    if occurs_at(s@, p@, i as int) {
                        assert(s@.subrange(i as int, i + p@.len())[j as int] == p@[j as int]);
                    }
                }
            }
            return false;
        }
        j += 1;
    }
    proof {
        assert(s@.subrange(i as int, i + p@.len()) =~= p@);
    }
    true
}

/// `s` starts with `p`.
pub fn starts_with_str(s: &str, p: &str) -> (r: bool)
    ensures
        r == prefix_of(p@, s@),
{
    let slen: usize = s.unicode_len();
    let plen: usize = p.unicode_len();
    if plen > slen {
        return false;
    }
    let r = match_at(s, p, 0);
    proof {
        assert(occurs_at(s@, p@, 0) == prefix_of(p@, s@));
    }
    r
}

/// `s` ends with `p`.
pub fn ends_with_str(s: &str, p: &str) -> (r: bool)
    ensures
        r == suffix_of(p@, s@),
{
    let slen: usize = s.unicode_len();
    let plen: usize = p.unicode_len();
    if plen > slen {
        return false;
    }
    let r = match_at(s, p, slen - plen);
    proof {
        assert(occurs_at(s@, p@, s@.len() - p@.len()) == suffix_of(p@, s@));
    }
    r
}

/// The least index `>= i` at which character `c` occurs in `s`, if any.
pub open spec fn first_idx_from(s: Seq<char>, c: char, i: int) -> Option<int>
    decreases s.len() - i,
{
    if i < 0 || i >= s.len() {
        None
    } else if s[i] == c {
        Some(i)
    } else {
        first_idx_from(s, c, i + 1)
    }
}

/// What `first_idx_from` returns: the first position of `c` at or after `i`.
pub proof fn first_idx_from_ensures(s: Seq<char>, c: char, i: int)
    requires
        0 <= i,
    ensures
        match first_idx_from(s, c, i) {
            Some(j) => i <= j < s.len() && s[j] == c && forall|k: int| i <= k < j ==> s[k] != c,
            None => forall|k: int| i <= k < s.len() ==> s[k] != c,
        },
    decreases s.len() - i,
{
    if i >= s.len() {
    } else if s[i] == c {
    } else {
        first_idx_from_ensures(s, c, i + 1);
    }
}

/// The first position of `c` in `s` at or after index `from`.
pub fn find_char_from(s: &str, c: char, from: usize) -> (r: Option<usize>)
    ensures
        match r {
            Some(j) => Some(j as int) == first_idx_from(s@, c, from as int),
            None => first_idx_from(s@, c, from as int) is None,
        },
{
    let slen: usize = s.unicode_len();
    let mut i: usize = from;
    while i < slen
        invariant
            slen == s@.len(),
            from <= i,
            first_idx_from(s@, c, from as int) == first_idx_from(s@, c, i as int),
        decreases slen - i,
    {
        if s.get_char(i) == c {
            return Some(i);
        }
        i += 1;
    }
    None
}

/// The first occurrence of `p` in `s` at or after character index `from`.
pub fn find_str_from(s: &str, p: &str, from: usize) -> (r: Option<usize>)
    ensures
        match r {
            Some(j) => Some(j as int) == first_occ_from(s@, p@, from as int),
            None => first_occ_from(s@, p@, from as int) is None,
        },
{
    let slen: usize = s.unicode_len();
    let plen: usize = p.unicode_len();
    if from > slen || plen > slen - from {
        return None;
    }
    if plen == 0 {
        return Some(from);
    }
    let mut i: usize = from;
    while i <= slen - plen
        invariant
            slen == s@.len(),
            plen == p@.len(),
            1 <= plen <= slen,
            from <= i <= slen - plen + 1,
            first_occ_from(s@, p@, from as int) == first_occ_from(s@, p@, i as int),
        decreases slen - i,
    {
        if match_at(s, p, i) {
            return Some(i);
        }
        i += 1;
    }
    None
}

/// The first occurrence of `p` in `s`, as a character index.
pub fn find_str(s: &str, p: &str) -> (r: Option<usize>)
    ensures
        match r {
            Some(j) => Some(j as int) == first_occ_from(s@, p@, 0),
            None => first_occ_from(s@, p@, 0) is None,
        },
{
    find_str_from(s, p, 0)
}

/// `s` contains `p` somewhere.
pub fn contains_str(s: &str, p: &str) -> (r: bool)
    ensures
        r == contains_seq(s@, p@),
{
    let r = find_str(s, p);
    proof {
        first_occ_from_ensures(s@, p@, 0);
        match first_occ_from(s@, p@, 0) {
            Some(j) => {
                assert(occurs_at(s@, p@, j));
            },
            None => {
                assert(!contains_seq(s@, p@)) by {
                    if contains_seq(s@, p@) {
                        let k = choose|k: int| occurs_at(s@, p@, k);
                        assert(k >= 0);
                    }
                }
            },
        }
    }
    r.is_some()
}

/// `s` with the prefix `p` removed, when `p` is a prefix.
pub fn strip_prefix_str<'a>(s: &'a str, p: &str) -> (r: Option<&'a str>)
    ensures
        match r {
            Some(t) => prefix_of(p@, s@) && t@ == s@.skip(p@.len() as int),
            None => !prefix_of(p@, s@),
        },
{
    if starts_with_str(s, p) {
        let slen: usize = s.unicode_len();
        let plen: usize = p.unicode_len();
        let t = s.substring_char(plen, slen);
        proof {
            assert(t@ =~= s@.skip(p@.len() as int));
        }
        Some(t)
    } else {
        None
    }
}

/// `s` with the suffix `p` removed, when `p` is a suffix.
pub fn strip_suffix_str<'a>(s: &'a str, p: &str) -> (r: Option<&'a str>)
    ensures
        match r {
            Some(t) => suffix_of(p@, s@) && t@ == s@.take(s@.len() - p@.len()),
            None => !suffix_of(p@, s@),
        },
{
    if ends_with_str(s, p) {
        let slen: usize = s.unicode_len();
        let plen: usize = p.unicode_len();
        let t = s.substring_char(0, slen - plen);
        proof {
            assert(t@ =~= s@.take(s@.len() - p@.len()));
        }
        Some(t)
    } else {
        None
    }
}

/// Searching from `st` in `s` is searching from 0 in `s.skip(st)`.
pub proof fn lemma_first_idx_shift(s: Seq<char>, c: char, st: int)
    requires
        0 <= st <= s.len(),
    ensures
        first_idx_from(s, c, st) == (match first_idx_from(s.skip(st), c, 0) {
            None => None::<int>,
            Some(k) => Some(k + st),
        }),
    decreases s.len() - st,
{
    first_idx_from_ensures(s, c, st);
    first_idx_from_ensures(s.skip(st), c, 0);
    let t = s.skip(st);
    match first_idx_from(s, c, st) {
        Some(j) => {
            assert(t[j - st] == c);
            match first_idx_from(t, c, 0) {
                Some(k) => {
                    assert(s[k + st] == c);
                },
                None => {
                    assert(t[j - st] != c);
                },
            }
        },
        None => {
            match first_idx_from(t, c, 0) {
                Some(k) => {
                    assert(s[k + st] == c);
                },
                None => {},
            }
        },
    }
}

/// The same shift for a multi-character pattern.
pub proof fn lemma_first_occ_shift(s: Seq<char>, p: Seq<char>, st: int)
    requires
        0 <= st <= s.len(),
    ensures
        first_occ_from(s, p, st) == (match first_occ_from(s.skip(st), p, 0) {
            None => None::<int>,
            Some(k) => Some(k + st),
        }),
{
    first_occ_from_ensures(s, p, st);
    first_occ_from_ensures(s.skip(st), p, 0);
    let t = s.skip(st);
    assert forall|k: int| 0 <= k && k + p.len() <= t.len() implies occurs_at(
        t,
        p,
        k,
    ) == occurs_at(s, p, k + st) by {
        assert(t.subrange(k, k + p.len()) =~= s.subrange(k + st, k + st + p.len()));
    }
    match first_occ_from(s, p, st) {
        Some(j) => {
            assert(occurs_at(t, p, j - st));
            match first_occ_from(t, p, 0) {
                Some(k) => {
                    assert(occurs_at(s, p, k + st));
                },
                None => {
                    assert(!occurs_at(t, p, j - st));
                },
            }
        },
        None => {
            match first_occ_from(t, p, 0) {
                Some(k) => {
                    assert(occurs_at(s, p, k + st));
                },
                None => {},
            }
        },
    }
}

/// `s` divided at every occurrence of `c`; a separator at either end or
/// two adjacent separators yield empty segments, as `split` does.
pub open spec fn spec_split_char(s: Seq<char>, c: char) -> Seq<Seq<char>>
    decreases s.len(),
    via spec_split_char_dec
{
    match first_idx_from(s, c, 0) {
        None => seq![s],
        Some(i) => seq![s.take(i)] + spec_split_char(s.skip(i + 1), c),
    }
}

#[via_fn]
proof fn spec_split_char_dec(s: Seq<char>, c: char) {
    first_idx_from_ensures(s, c, 0);
}

/// Divide `s` at every occurrence of `c`.
pub fn split_char(s: &str, c: char) -> (r: Vec<String>)
    ensures
        r.deep_view() == spec_split_char(s@, c),
{
    let slen: usize = s.unicode_len();
    let mut out: Vec<String> = Vec::new();
    let mut start: usize = 0;
    proof {
        assert(s@.skip(0) =~= s@);
        assert(out.deep_view() =~= Seq::<Seq<char>>::empty());
        assert(out.deep_view() + spec_split_char(s@, c) =~= spec_split_char(s@, c));
    }
    loop
        invariant
            slen == s@.len(),
            0 <= start <= slen,
            spec_split_char(s@, c) == out.deep_view() + spec_split_char(s@.skip(start as int), c),
        decreases slen - start,
    {
        proof {
            lemma_first_idx_shift(s@, c, start as int);
            first_idx_from_ensures(s@, c, start as int);
        }
        match find_char_from(s, c, start) {
            Some(j) => {
                let field = s.substring_char(start, j);
                let ghost old_out = out.deep_view();
                out.push(String::from_str(field));
                proof {
                    assert(out.deep_view() =~= old_out + seq![field@]);
                    assert(field@ =~= s@.skip(start as int).take(j - start));
                    assert(s@.skip(j + 1) =~= s@.skip(start as int).skip(j - start + 1));
                    assert(out.deep_view() + spec_split_char(s@.skip(j + 1), c) =~= old_out
                        + spec_split_char(s@.skip(start as int), c));
                }
                start = j + 1;
            },
            None => {
                let field = s.substring_char(start, slen);
                let ghost old_out = out.deep_view();
                out.push(String::from_str(field));
                proof {
                    assert(out.deep_view() =~= old_out + seq![field@]);
                    assert(field@ =~= s@.skip(start as int));
                    assert(out.deep_view() =~= old_out + spec_split_char(
                        s@.skip(start as int),
                        c,
                    ));
                    assert(out.deep_view() =~= spec_split_char(s@, c));
                }
                return out;
            },
        }
    }
}

/// `s` divided at every occurrence of the pattern `p`.
pub open spec fn spec_split_seq(s: Seq<char>, p: Seq<char>) -> Seq<Seq<char>>
    decreases s.len(),
    when p.len() >= 1
    via spec_split_seq_dec
{
    match first_occ_from(s, p, 0) {
        None => seq![s],
        Some(i) => seq![s.take(i)] + spec_split_seq(s.skip(i + p.len()), p),
    }
}

#[via_fn]
proof fn spec_split_seq_dec(s: Seq<char>, p: Seq<char>) {
    first_occ_from_ensures(s, p, 0);
}

/// Divide `s` at every occurrence of the pattern `p`.
pub fn split_str(s: &str, p: &str) -> (r: Vec<String>)
    requires
        p@.len() >= 1,
    ensures
        r.deep_view() == spec_split_seq(s@, p@),
{
    let slen: usize = s.unicode_len();
    let plen: usize = p.unicode_len();
    let mut out: Vec<String> = Vec::new();
    let mut start: usize = 0;
    proof {
        assert(s@.skip(0) =~= s@);
        assert(out.deep_view() =~= Seq::<Seq<char>>::empty());
        assert(out.deep_view() + spec_split_seq(s@, p@) =~= spec_split_seq(s@, p@));
    }
    loop
        invariant
            slen == s@.len(),
            plen == p@.len(),
            1 <= plen,
            0 <= start <= slen,
            spec_split_seq(s@, p@) == out.deep_view() + spec_split_seq(s@.skip(start as int), p@),
        decreases slen - start,
    {
        proof {
            lemma_first_occ_shift(s@, p@, start as int);
            first_occ_from_ensures(s@, p@, start as int);
        }
        match find_str_from(s, p, start) {
            Some(j) => {
                let field = s.substring_char(start, j);
                let ghost old_out = out.deep_view();
                out.push(String::from_str(field));
                proof {
                    assert(out.deep_view() =~= old_out + seq![field@]);
                    assert(field@ =~= s@.skip(start as int).take(j - start));
                    assert(s@.skip(j + plen) =~= s@.skip(start as int).skip(
                        j - start + p@.len(),
                    ));
                    assert(out.deep_view() + spec_split_seq(s@.skip(j + plen), p@) =~= old_out
                        + spec_split_seq(s@.skip(start as int), p@));
                }
                start = j + plen;
            },
            None => {
                let field = s.substring_char(start, slen);
                let ghost old_out = out.deep_view();
                out.push(String::from_str(field));
                proof {
                    assert(out.deep_view() =~= old_out + seq![field@]);
                    assert(field@ =~= s@.skip(start as int));
                    assert(out.deep_view() =~= old_out + spec_split_seq(
                        s@.skip(start as int),
                        p@,
                    ));
                    assert(out.deep_view() =~= spec_split_seq(s@, p@));
                }
                return out;
            },
        }
    }
}

/// `s` with every occurrence of `p` replaced by `r`, scanning left to
/// right; the replacement text is never rescanned.
pub open spec fn spec_replace(s: Seq<char>, p: Seq<char>, r: Seq<char>) -> Seq<char>
    decreases s.len(),
    when p.len() >= 1
    via spec_replace_dec
{
    match first_occ_from(s, p, 0) {
        None => s,
        Some(i) => s.take(i) + r + spec_replace(s.skip(i + p.len()), p, r),
    }
}

#[via_fn]
proof fn spec_replace_dec(s: Seq<char>, p: Seq<char>, r: Seq<char>) {
    first_occ_from_ensures(s, p, 0);
}

/// Replace every occurrence of `p` in `s` by `r`.
pub fn replace_all(s: &str, p: &str, r: &str) -> (t: String)
    requires
        p@.len() >= 1,
    ensures
        t@ == spec_replace(s@, p@, r@),
{
    let slen: usize = s.unicode_len();
    let mut out: String = String::new();
    let mut start: usize = 0;
    proof {
        assert(s@.skip(0) =~= s@);
        assert(out@ + spec_replace(s@, p@, r@) =~= spec_replace(s@, p@, r@));
    }
    loop
        invariant
            slen == s@.len(),
            p@.len() >= 1,
            0 <= start <= slen,
            spec_replace(s@, p@, r@) == out@ + spec_replace(s@.skip(start as int), p@, r@),
        decreases slen - start,
    {
        proof {
            lemma_first_occ_shift(s@, p@, start as int);
            first_occ_from_ensures(s@, p@, start as int);
        }
        match find_str_from(s, p, start) {
            Some(j) => {
                let plen: usize = p.unicode_len();
                let piece = s.substring_char(start, j);
                let ghost old_out = out@;
                out.append(piece);
                out.append(r);
                proof {
                    assert(piece@ =~= s@.skip(start as int).take(j - start));
                    assert(s@.skip(j + plen) =~= s@.skip(start as int).skip(
                        j - start + p@.len(),
                    ));
                    assert(out@ + spec_replace(s@.skip(j + plen), p@, r@) =~= old_out
                        + spec_replace(s@.skip(start as int), p@, r@));
                }
                start = j + plen;
            },
            None => {
                let piece = s.substring_char(start, slen);
                out.append(piece);
                proof {
                    assert(piece@ =~= s@.skip(start as int));
                    assert(out@ =~= spec_replace(s@, p@, r@));
                }
                return out;
            },
        }
    }
}

/// `s` with leading whitespace removed.
pub open spec fn spec_trim_front(s: Seq<char>) -> Seq<char>
    decreases s.len(),
{
    if s.len() > 0 && is_space(s[0]) {
        spec_trim_front(s.drop_first())
    } else {
        s
    }
}

/// `s` with trailing whitespace removed.
pub open spec fn spec_trim_back(s: Seq<char>) -> Seq<char>
    decreases s.len(),
{
    if s.len() > 0 && is_space(s.last()) {
        spec_trim_back(s.drop_last())
    } else {
        s
    }
}

/// `s` with whitespace removed from both ends.
pub open spec fn spec_trim(s: Seq<char>) -> Seq<char> {
    spec_trim_back(spec_trim_front(s))
}

proof fn lemma_trim_front_skip(s: Seq<char>, k: int)
    requires
        0 <= k <= s.len(),
        forall|j: int| 0 <= j < k ==> is_space(s[j]),
        k < s.len() ==> !is_space(s[k]),
    ensures
        spec_trim_front(s) == s.skip(k),
    decreases k,
{
    if k == 0 {
        assert(s.skip(0) =~= s);
    } else {
        assert(is_space(s[0]));
        assert(s.drop_first() =~= s.skip(1));
        lemma_trim_front_skip(s.skip(1), k - 1);
        assert(s.skip(1).skip(k - 1) =~= s.skip(k));
    }
}

proof fn lemma_trim_back_take(s: Seq<char>, b: int)
    requires
        0 <= b <= s.len(),
        forall|j: int| b <= j < s.len() ==> is_space(s[j]),
        b > 0 ==> !is_space(s[b - 1]),
    ensures
        spec_trim_back(s) == s.take(b),
    decreases s.len() - b,
{
    if b == s.len() {
        assert(s.take(b) =~= s);
    } else {
        assert(is_space(s.last()));
        assert(s.drop_last() =~= s.take(s.len() - 1));
        lemma_trim_back_take(s.take(s.len() - 1), b);
        assert(s.take(s.len() - 1).take(b) =~= s.take(b));
    }
}

/// `s` with whitespace removed from both ends.
pub fn trim_str<'a>(s: &'a str) -> (r: &'a str)
    ensures
        r@ == spec_trim(s@),
{
    let slen: usize = s.unicode_len();
    let mut a: usize = 0;
    while a < slen && is_space_exec(s.get_char(a))
        invariant
            slen == s@.len(),
            0 <= a <= slen,
            forall|j: int| 0 <= j < a ==> is_space(s@[j]),
        decreases slen - a,
    {
        a += 1;
    }
    let mut b: usize = slen;
    while b > a && is_space_exec(s.get_char(b - 1))
        invariant
            slen == s@.len(),
            a <= b <= slen,
            forall|j: int| b <= j < slen ==> is_space(s@[j]),
        decreases b,
    {
        b -= 1;
    }
    let r = s.substring_char(a, b);
    proof {
        lemma_trim_front_skip(s@, a as int);
        let t = s@.skip(a as int);
        assert forall|j: int| b - a <= j < t.len() implies is_space(t[j]) by {
            assert(t[j] == s@[j + a]);
        }
        if b > a {
            assert(!is_space(t[b - a - 1]));
        }
        lemma_trim_back_take(t, b - a);
        assert(r@ =~= t.take(b - a));
    }
    r
}

/// Exec mirror of `is_space`.
pub fn is_space_exec(c: char) -> (r: bool)
    ensures
        r == is_space(c),
{
    c == ' ' || c == '\t' || c == '\r' || c == '\n'
}

} // verus!
