//! Collecting the outcomes of a batch of independent calls.
//!
//! A bulk operation issues one call per input and gathers the outcomes in
//! input order.  Reporting is fail-fast: the whole batch succeeds with every
//! result, in input order, or fails with the first error in input order —
//! never a partial list.

use vstd::prelude::*;

verus! {

/// Fold a list of outcomes into one outcome: all values in order, or the
/// first error.
pub open spec fn spec_collect<T, E>(s: Seq<Result<T, E>>) -> Result<Seq<T>, E>
    decreases s.len(),
{
    if s.len() == 0 {
        Ok(Seq::empty())
    } else {
        match s[0] {
            Err(e) => Err(e),
            Ok(t) => match spec_collect(s.drop_first()) {
                Ok(ts) => Ok(seq![t] + ts),
                Err(e) => Err(e),
            },
        }
    }
}

/// Collect a batch's outcomes: every value in input order if all succeeded,
/// or the first error in input order.
pub fn collect_results<T, E>(results: Vec<Result<T, E>>) -> (r: Result<Vec<T>, E>)
    ensures
        match (r, spec_collect(results@)) {
            (Ok(v), Ok(sv)) => v@ == sv,
            (Err(e), Err(se)) => e == se,
            _ => false,
        },
    decreases results@.len(),
{
    let mut results = results;
    if results.len() == 0 {
        let empty: Vec<T> = Vec::new();
        Ok(empty)
    } else {
        let ghost orig = results@;
        let first = results.remove(0);
        proof {
            assert(results@ =~= orig.drop_first());
        }
        match first {
            Err(e) => Err(e),
            Ok(t) => match collect_results(results) {
                Ok(ts) => {
                    let mut ts = ts;
                    let ghost rest = ts@;
                    ts.insert(0, t);
                    proof {
                        assert(ts@ =~= seq![orig[0]->Ok_0] + rest);
                    }
                    Ok(ts)
                },
                Err(e) => Err(e),
            },
        }
    }
}

/// When every outcome succeeded, the batch succeeds with every value, in
/// the same order as the inputs.
pub proof fn lemma_collect_all_ok<T, E>(s: Seq<Result<T, E>>)
    requires
        forall|i: int| 0 <= i < s.len() ==> s[i] is Ok,
    ensures
        spec_collect(s) matches Ok(ts) && ts.len() == s.len() && forall|i: int|
            0 <= i < s.len() ==> ts[i] == s[i]->Ok_0,
    decreases s.len(),
{
    if s.len() > 0 {
        assert(forall|i: int| 0 <= i < s.drop_first().len() ==> s.drop_first()[i] == s[i + 1]);
        lemma_collect_all_ok::<T, E>(s.drop_first());
        let ts_rest = spec_collect(s.drop_first())->Ok_0;
        assert(spec_collect(s) == Ok::<Seq<T>, E>(seq![s[0]->Ok_0] + ts_rest));
        assert forall|i: int| 0 <= i < s.len() implies (seq![s[0]->Ok_0] + ts_rest)[i] == s[i]->Ok_0
        by {
            if i > 0 {
                assert(ts_rest[i - 1] == s.drop_first()[i - 1]->Ok_0);
            }
        }
    }
}

/// When some outcome failed, the batch fails with the first error in input
/// order, not a partial list.
pub proof fn lemma_collect_first_err<T, E>(s: Seq<Result<T, E>>, i: int)
    requires
        0 <= i < s.len(),
        s[i] is Err,
        forall|k: int| 0 <= k < i ==> s[k] is Ok,
    ensures
        spec_collect(s) == Err::<Seq<T>, E>(s[i]->Err_0),
    decreases s.len(),
{
    if i == 0 {
    } else {
        assert(forall|k: int| 0 <= k < s.drop_first().len() ==> s.drop_first()[k] == s[k + 1]);
        lemma_collect_first_err::<T, E>(s.drop_first(), i - 1);
    }
}

} // verus!
