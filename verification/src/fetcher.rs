//! Orchestration of per-provider fetches: failures are isolated, and
//! successful results are accumulated in order.  The network calls
//! themselves happen outside; each adapter's outcome is handed in as a
//! plain value.

use vstd::prelude::*;
use crate::models::{ModelInfo, ProviderInfo};

verus! {

/// Why one adapter's fetch failed.
#[derive(Debug)]
pub struct FetchError {
    pub message: String,
}

/// One adapter's identity and the outcome of its fetch.
#[derive(Debug)]
pub struct FetchOutcome {
    pub provider_id: String,
    pub provider_name: String,
    pub result: Result<Vec<ModelInfo>, FetchError>,
}

/// The successful outcomes, in order.
pub open spec fn successes(outcomes: Seq<FetchOutcome>) -> Seq<FetchOutcome>
    decreases outcomes.len(),
{
    if outcomes.len() == 0 {
        Seq::empty()
    } else {
        let rest = successes(outcomes.drop_first());
        if outcomes[0].result is Ok {
            seq![outcomes[0]] + rest
        } else {
            rest
        }
    }
}

/// An element-for-element copy of a model list.
pub fn clone_models(v: &Vec<ModelInfo>) -> (r: Vec<ModelInfo>)
    ensures
        r@ == v@,
{
    let mut r: Vec<ModelInfo> = Vec::new();
    let n = v.len();
    for i in 0..n
        invariant
            n == v@.len(),
            r@ == v@.subrange(0, i as int),
    {
        r.push(v[i].duplicate());
        proof {
            assert(r@ =~= v@.subrange(0, i + 1 as int));
        }
    }
    proof {
        assert(v@.subrange(0, n as int) =~= v@);
    }
    r
}

/// Walks the outcomes in their fixed order: a success becomes a
/// `ProviderInfo` stamped with a fresh timestamp, a failure is skipped;
/// one failed adapter never aborts the run, and an all-failed run yields
/// an empty list.
pub fn collect_provider_results(outcomes: &Vec<FetchOutcome>) -> (r: Vec<ProviderInfo>)
    ensures
        r@.len() == successes(outcomes@).len(),
        forall|i: int| 0 <= i < r@.len() ==> {
            let o = successes(outcomes@)[i];
            (#[trigger] r@[i]).provider == o.provider_id && r@[i].provider_name == o.provider_name
                && r@[i].models@ == o.result->Ok_0@
        },
{
    let ghost succ = successes(outcomes@);
    let mut r: Vec<ProviderInfo> = Vec::new();
    let n = outcomes.len();
    proof {
        assert(outcomes@.skip(0) =~= outcomes@);
    }
    for i in 0..n
        invariant
            n == outcomes@.len(),
            succ == successes(outcomes@),
            r@.len() <= succ.len(),
            succ == succ.subrange(0, r@.len() as int) + successes(outcomes@.skip(i as int)),
            forall|k: int| 0 <= k < r@.len() ==> {
                let o = succ[k];
                (#[trigger] r@[k]).provider == o.provider_id && r@[k].provider_name
                    == o.provider_name && r@[k].models@ == o.result->Ok_0@
            },
    {
        proof {
            assert(outcomes@.skip(i as int)[0] == outcomes@[i as int]);
            assert(outcomes@.skip(i as int).drop_first() =~= outcomes@.skip(i + 1 as int));
        }
        let o = &outcomes[i];
        match &o.result {
            Ok(models) => {
                let ghost pre = r@.len() as int;
                let info = ProviderInfo::new(
                    o.provider_id.clone(),
                    o.provider_name.clone(),
                    clone_models(models),
                );
                r.push(info);
                proof {
                    let tail = successes(outcomes@.skip(i + 1 as int));
                    assert(succ == succ.subrange(0, pre) + (seq![outcomes@[i as int]] + tail));
                    assert(succ[pre] == outcomes@[i as int]);
                    assert(succ.subrange(0, pre + 1) =~= succ.subrange(0, pre).push(succ[pre]));
                    assert(succ =~= succ.subrange(0, pre + 1) + tail);
                }
            },
            Err(_) => {},
        }
    }
    proof {
        assert(outcomes@.skip(n as int) =~= Seq::<FetchOutcome>::empty());
        assert(succ =~= succ.subrange(0, r@.len() as int));
    }
    r
}

} // verus!
