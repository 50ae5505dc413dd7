//! The shared shape of every backend's verdict scan: walk the output lines
//! in emission order, ask a fixed, ordered predicate table about each line,
//! and let the first line with a signal decide the verdict for the job.

use vstd::prelude::*;

use crate::status::Status;

verus! {

/// The verdict signalled by the first line that any predicate matches,
/// where `f` is one backend's per-line predicate table.
pub open spec fn first_signal(
    lines: Seq<Seq<char>>,
    f: spec_fn(Seq<char>) -> Option<Status>,
) -> Option<Status>
    decreases lines.len(),
{
    if lines.len() == 0 {
        None
    } else {
        match f(lines.first()) {
            Some(v) => Some(v),
            None => first_signal(lines.drop_first(), f),
        }
    }
}

/// When no line matches any predicate, the scan yields no signal, and the
/// classifier falls back to `Unknown` with a warning.
pub proof fn lemma_no_signal(lines: Seq<Seq<char>>, f: spec_fn(Seq<char>) -> Option<Status>)
    requires
        forall|i: int| 0 <= i < lines.len() ==> f(#[trigger] lines[i]) is None,
    ensures
        first_signal(lines, f) is None,
    decreases lines.len(),
{
    if lines.len() > 0 {
        assert(forall|i: int|
            0 <= i < lines.drop_first().len() ==> f(#[trigger] lines.drop_first()[i]) is None);
        lemma_no_signal(lines.drop_first(), f);
    }
}

/// First match wins: if no line before `i` matches and line `i` matches,
/// line `i` decides the verdict, whatever the later lines say.
pub proof fn lemma_first_signal_decides(
    lines: Seq<Seq<char>>,
    f: spec_fn(Seq<char>) -> Option<Status>,
    i: int,
)
    requires
        0 <= i < lines.len(),
        forall|j: int| 0 <= j < i ==> f(#[trigger] lines[j]) is None,
        f(lines[i]) is Some,
    ensures
        first_signal(lines, f) == f(lines[i]),
    decreases i,
{
    if i == 0 {
    } else {
        assert(f(lines.first()) is None);
        assert(lines.drop_first()[i - 1] == lines[i]);
        assert(forall|j: int|
            0 <= j < i - 1 ==> f(#[trigger] lines.drop_first()[j]) is None) by {
            assert(forall|j: int| 0 <= j < i - 1 ==> lines.drop_first()[j] == lines[j + 1]);
        }
        lemma_first_signal_decides(lines.drop_first(), f, i - 1);
    }
}

/// Scanning a concatenation of two captures (stderr first, then stdout)
/// is scanning the first and falling through to the second.
pub proof fn lemma_first_signal_append(
    a: Seq<Seq<char>>,
    b: Seq<Seq<char>>,
    f: spec_fn(Seq<char>) -> Option<Status>,
)
    ensures
        first_signal(a + b, f) == (match first_signal(a, f) {
            Some(v) => Some(v),
            None => first_signal(b, f),
        }),
    decreases a.len(),
{
    if a.len() == 0 {
        assert(a + b =~= b);
    } else {
        assert((a + b).first() == a.first());
        assert((a + b).drop_first() =~= a.drop_first() + b);
        lemma_first_signal_append(a.drop_first(), b, f);
    }
}

} // verus!
