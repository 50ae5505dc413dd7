//! Small general-purpose helpers.

use vstd::prelude::*;

verus! {

/// Relies on `String::push`: appends the given character to the string.
pub assume_specification[ String::push ](s: &mut String, ch: char)
    ensures
        final(s)@ == old(s)@.push(ch),
;

/// Decode ISO-8859-1 bytes: each byte becomes the character with the same
/// code point.
pub fn from_latin1(s: &[u8]) -> (r: String)
    ensures
        r@.len() == s@.len(),
        forall|i: int| 0 <= i < s@.len() ==> r@[i] == s@[i] as char,
{
    let n: usize = s.len();
    let mut out: String = String::new();
    let mut i: usize = 0;
    while i < n
        invariant
            n == s@.len(),
            0 <= i <= n,
            out@.len() == i,
            forall|j: int| 0 <= j < i ==> out@[j] == s@[j] as char,
        decreases n - i,
    {
        let b: u8 = s[i];
        out.push(b as char);
        i += 1;
    }
    out
}

/// Chainable concatenation, so that joining segments needs no separate
/// mutation statements.
pub trait Append<S: ?Sized>: Sized {
    /// What `append` leaves behind, stated per implementing type.
    spec fn append_post(pre: Self, s: &S, post: Self) -> bool;

    /// Concatenate `s` to the end of `self` and hand the result back.
    fn append(self, s: &S) -> (r: Self)
        ensures
            Self::append_post(self, s, r),
    ;
}

impl Append<str> for String {
    open spec fn append_post(pre: String, s: &str, post: String) -> bool {
        post@ == pre@ + s@
    }

    fn append(self, s: &str) -> (r: String)
        ensures
            Self::append_post(self, s, r),
    {
        self.concat(s)
    }
}

/// Append clones of all of `xs` to `out`.
pub fn push_all_strings(out: &mut Vec<String>, xs: &Vec<String>)
    ensures
        final(out)@ == old(out)@ + xs@,
        final(out).deep_view() == old(out).deep_view() + xs.deep_view(),
{
    let ghost base_sh = out@;
    let ghost base = out.deep_view();
    let mut i: usize = 0;
    while i < xs.len()
        invariant
            xs.deep_view().len() == xs.len(),
            xs@.len() == xs.len(),
            0 <= i <= xs.len(),
            out@ =~= base_sh + xs@.take(i as int),
            out.deep_view() =~= base + xs.deep_view().take(i as int),
        decreases xs.len() - i,
    {
        let x: &String = &xs[i];
        proof {
            assert(xs.deep_view()[i as int] == x@);
            assert(xs@[i as int] == *x);
        }
        let ghost old_sh = out@;
        let ghost old_out = out.deep_view();
        out.push(x.clone());
        proof {
            assert(out@ =~= old_sh.push(xs@[i as int]));
            assert(out@ =~= base_sh + xs@.take(i + 1));
            assert(out.deep_view() =~= old_out.push(xs.deep_view()[i as int]));
            assert(out.deep_view() =~= base + xs.deep_view().take(i + 1));
        }
        i += 1;
    }
    proof {
        assert(xs@.take(xs@.len() as int) =~= xs@);
        assert(xs.deep_view().take(xs.deep_view().len() as int) =~= xs.deep_view());
    }
}

/// Unwrap a value whose absence would reject the execution path.  Under
/// a symbolic backend an absent value silently prunes the path; run
/// concretely it aborts, so callers must establish presence.
pub trait UnwrapOrReject {
    type Wrapped;

    /// Would unwrapping reject the path?
    spec fn rejects(&self) -> bool;

    /// The value carried when the path is kept.
    spec fn wrapped_value(self) -> Self::Wrapped;

    /// Take the carried value.
    fn unwrap_or_reject(self) -> (r: Self::Wrapped)
        requires
            !self.rejects(),
        ensures
            r == self.wrapped_value(),
    ;
}

impl<T, E> UnwrapOrReject for Result<T, E> {
    type Wrapped = T;

    open spec fn rejects(&self) -> bool {
        self is Err
    }

    open spec fn wrapped_value(self) -> T {
        self->Ok_0
    }

    fn unwrap_or_reject(self) -> (r: T) {
        match self {
            Ok(x) => x,
            Err(_) => vstd::pervasive::unreached(),
        }
    }
}

impl<T> UnwrapOrReject for Option<T> {
    type Wrapped = T;

    open spec fn rejects(&self) -> bool {
        self is None
    }

    open spec fn wrapped_value(self) -> T {
        self->Some_0
    }

    fn unwrap_or_reject(self) -> (r: T) {
        match self {
            Some(x) => x,
            None => vstd::pervasive::unreached(),
        }
    }
}

} // verus!
