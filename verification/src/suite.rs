//! Aggregation of per-job verdicts into a suite result.
//!
//! The scheduler runs one backend invocation per job and collects one
//! verdict per job; this module reduces that list to the counts and the
//! single representative verdict that decides the process exit status.

use vstd::multiset::Multiset;
use vstd::prelude::*;

use crate::status::Status;
use crate::text::prefix_of;
use crate::text::strip_prefix_str;

verus! {

/// One function to check: its human-readable name and the symbol the
/// backend must start at, both resolved against the compiled artifact.
pub struct VerificationJob {
    pub display_name: String,
    pub entry_symbol: String,
    pub artifact: String,
}

/// The aggregate over all jobs of one run, built once after every job has
/// completed.
pub struct SuiteResult {
    pub total: usize,
    pub passed: usize,
    pub failed: usize,
    pub status: Status,
}

/// How many verdicts in `s` are `Verified`.
pub open spec fn count_verified(s: Seq<Status>) -> nat
    decreases s.len(),
{
    if s.len() == 0 {
        0
    } else {
        count_verified(s.drop_last()) + if s.last() == Status::Verified {
            1nat
        } else {
            0nat
        }
    }
}

/// The first non-`Verified` verdict in `s`, if any: the representative
/// failure used for the process exit status.
pub open spec fn first_failing(s: Seq<Status>) -> Option<Status>
    decreases s.len(),
{
    if s.len() == 0 {
        None
    } else if s.first() != Status::Verified {
        Some(s.first())
    } else {
        first_failing(s.drop_first())
    }
}

/// At most every verdict is `Verified`.
pub proof fn lemma_count_verified_le_len(s: Seq<Status>)
    ensures
        count_verified(s) <= s.len(),
    decreases s.len(),
{
    if s.len() > 0 {
        lemma_count_verified_le_len(s.drop_last());
    }
}

/// The count reaches the length exactly when every verdict is `Verified`.
pub proof fn lemma_count_verified_exact(s: Seq<Status>)
    ensures
        count_verified(s) == s.len() <==> (forall|i: int|
            0 <= i < s.len() ==> s[i] == Status::Verified),
    decreases s.len(),
{
    if s.len() > 0 {
        lemma_count_verified_exact(s.drop_last());
        lemma_count_verified_le_len(s.drop_last());
        if count_verified(s) == s.len() {
            assert forall|i: int| 0 <= i < s.len() implies s[i] == Status::Verified by {
                if i < s.len() - 1 {
                    assert(s.drop_last()[i] == s[i]);
                } else {
                    assert(s.last() == s[i]);
                }
            }
        } else {
            if forall|i: int| 0 <= i < s.len() ==> s[i] == Status::Verified {
                assert(forall|i: int|
                    0 <= i < s.drop_last().len() ==> #[trigger] s.drop_last()[i] == s[i]);
                assert(count_verified(s.drop_last()) == s.drop_last().len());
                assert(s.last() == s[s.len() - 1]);
            }
        }
    }
}

/// There is no failing verdict exactly when every verdict is `Verified`.
pub proof fn lemma_first_failing_none(s: Seq<Status>)
    ensures
        first_failing(s) is None <==> (forall|i: int|
            0 <= i < s.len() ==> s[i] == Status::Verified),
    decreases s.len(),
{
    if s.len() > 0 {
        lemma_first_failing_none(s.drop_first());
        if s.first() == Status::Verified {
            if first_failing(s) is None {
                assert forall|i: int| 0 <= i < s.len() implies s[i] == Status::Verified by {
                    if i > 0 {
                        assert(s.drop_first()[i - 1] == s[i]);
                    }
                }
            } else {
                if forall|i: int| 0 <= i < s.len() ==> s[i] == Status::Verified {
                    assert(forall|i: int|
                        0 <= i < s.drop_first().len() ==> #[trigger] s.drop_first()[i] == s[i
                            + 1]);
                }
            }
        }
    }
}

/// A failing representative, when there is one, is not `Verified`.
pub proof fn lemma_first_failing_not_verified(s: Seq<Status>)
    ensures
        match first_failing(s) {
            Some(v) => v != Status::Verified,
            None => true,
        },
    decreases s.len(),
{
    if s.len() > 0 && s.first() == Status::Verified {
        lemma_first_failing_not_verified(s.drop_first());
    }
}

/// Build the suite aggregate from the collected verdicts: the pass and
/// fail counts, and the representative verdict — the first failing one in
/// collection order, or `Verified` when every job passed.
pub fn from_verdicts(results: &Vec<Status>) -> (r: SuiteResult)
    ensures
        r.total == results.len(),
        r.passed == count_verified(results@),
        r.failed == results@.len() - count_verified(results@),
        r.status == (match first_failing(results@) {
            Some(v) => v,
            None => Status::Verified,
        }),
        (r.status == Status::Verified) <==> (r.passed == r.total),
{
    let ghost ls = results@;
    proof {
        assert(ls.skip(0) =~= ls);
    }
    let mut passed: usize = 0;
    let mut rep: Option<Status> = None;
    let mut i: usize = 0;
    while i < results.len()
        invariant
            ls == results@,
            0 <= i <= ls.len(),
            passed <= i,
            passed == count_verified(ls.take(i as int)),
            first_failing(ls) == (match rep {
                Some(v) => Some(v),
                None => first_failing(ls.skip(i as int)),
            }),
            rep is Some ==> rep == first_failing(ls),
        decreases results.len() - i,
    {
        let v: Status = results[i];
        proof {
            assert(ls.take(i + 1).drop_last() =~= ls.take(i as int));
            assert(ls.take(i + 1).last() == ls[i as int]);
            assert(ls.skip(i as int).first() == ls[i as int]);
            assert(ls.skip(i as int).drop_first() =~= ls.skip(i + 1));
        }
        if v == Status::Verified {
            passed += 1;
        } else {
            if rep.is_none() {
                rep = Some(v);
            }
        }
        i += 1;
    }
    proof {
        assert(ls.take(ls.len() as int) =~= ls);
        assert(ls.skip(ls.len() as int) =~= Seq::<Status>::empty());
        lemma_count_verified_le_len(ls);
        lemma_count_verified_exact(ls);
        lemma_first_failing_none(ls);
        lemma_first_failing_not_verified(ls);
    }
    let status = match rep {
        Some(v) => v,
        None => Status::Verified,
    };
    let total = results.len();
    SuiteResult { total, passed, failed: total - passed, status }
}

/// The process exit code derived from a suite result: zero exactly when
/// the representative verdict is `Verified`.
pub fn exit_code(r: &SuiteResult) -> (c: i32)
    ensures
        c == (if r.status == Status::Verified {
            0int
        } else {
            1int
        }),
        (c == 0) <==> (r.status == Status::Verified),
{
    if r.status == Status::Verified {
        0
    } else {
        1
    }
}

/// The verdict counts depend only on the multiset of verdicts, not on
/// their order: running the jobs on one worker or many, the same verdicts
/// give the same counts and the same pass/fail outcome.
pub proof fn lemma_count_verified_is_multiset_count(s: Seq<Status>)
    ensures
        count_verified(s) == s.to_multiset().count(Status::Verified),
    decreases s.len(),
{
    broadcast use vstd::seq_lib::group_seq_properties;

    if s.len() == 0 {
        s.to_multiset_ensures();
        assert(s.to_multiset() =~= Multiset::<Status>::empty());
    } else {
        lemma_count_verified_is_multiset_count(s.drop_last());
        s.drop_last().to_multiset_ensures();
        assert(s.drop_last().push(s.last()) =~= s);
    }
}

/// Scheduler order-independence: two verdict collections with the same
/// multiset have the same length, the same pass count, and agree on
/// whether any job failed.
pub proof fn lemma_suite_outcome_depends_on_multiset(a: Seq<Status>, b: Seq<Status>)
    requires
        a.to_multiset() == b.to_multiset(),
    ensures
        a.len() == b.len(),
        count_verified(a) == count_verified(b),
        (first_failing(a) is None) <==> (first_failing(b) is None),
{
    a.to_multiset_ensures();
    b.to_multiset_ensures();
    lemma_count_verified_is_multiset_count(a);
    lemma_count_verified_is_multiset_count(b);
    lemma_count_verified_le_len(a);
    lemma_count_verified_le_len(b);
    lemma_count_verified_exact(a);
    lemma_count_verified_exact(b);
    lemma_first_failing_none(a);
    lemma_first_failing_none(b);
}

/// Remove the leading `package::` from a resolved test name, as shown to
/// the user; a name without that prefix is kept whole.
pub fn strip_package_prefix<'a>(name: &'a str, package: &str) -> (r: &'a str)
    ensures
        ({
            let pat = package@ + "::"@;
            if prefix_of(pat, name@) {
                r@ == name@.skip(pat.len() as int)
            } else {
                r@ == name@
            }
        }),
{
    let pat = String::from_str(package).concat("::");
    match strip_prefix_str(name, pat.as_str()) {
        Some(t) => t,
        None => name,
    }
}

} // verus!
