//! Reconciliation of concurrently produced worker results.
//!
//! Workers run as independently scheduled tasks and finish in no particular
//! order; spawning and awaiting them is runtime work outside this library.
//! What is verified here is the orchestrator's decision core: handed every
//! task's completion result, in whatever order the tasks finished, it
//! returns one (id, output) pair per declaration, or surfaces the first
//! failure it observes. Re-association is by the carried asset id alone,
//! never by submission index.

use vstd::prelude::*;
use crate::errors::AssetError;
use crate::output::TrunkAssetPipelineOutput;

verus! {

/// The position of the first failed result, if any failed.
pub open spec fn first_err_index(
    s: Seq<(usize, Result<TrunkAssetPipelineOutput, AssetError>)>,
) -> Option<int>
    decreases s.len(),
{
    if s.len() == 0 {
        None
    } else if s[0].1 matches Err(_) {
        Some(0)
    } else {
        match first_err_index(s.drop_first()) {
            None => None,
            Some(i) => Some(i + 1),
        }
    }
}

/// `first_err_index` finds the first failure, and `None` only when every
/// result succeeded.
pub proof fn lemma_first_err_index_spec(s: Seq<(usize, Result<TrunkAssetPipelineOutput, AssetError>)>)
    ensures
        match first_err_index(s) {
            Some(i) => 0 <= i < s.len() && (s[i].1 matches Err(_)) && (forall|j: int|
                #![trigger s[j]]
                0 <= j < i ==> s[j].1 matches Ok(_)),
            None => forall|j: int| #![trigger s[j]] 0 <= j < s.len() ==> s[j].1 matches Ok(_),
        },
    decreases s.len(),
{
    if s.len() > 0 && !(s[0].1 matches Err(_)) {
        lemma_first_err_index_spec(s.drop_first());
        assert(forall|j: int| 1 <= j < s.len() ==> s[j] == s.drop_first()[j - 1]);
    }
}

/// Pair every completed worker's output with its asset id, or surface the
/// first failure. For `N` declarations whose workers all succeeded, exactly
/// `N` pairs come back, whatever order the completions arrived in.
#[verifier::loop_isolation(false)]
pub fn collect_outputs(
    results: Vec<(usize, Result<TrunkAssetPipelineOutput, AssetError>)>,
) -> (r: Result<Vec<(usize, TrunkAssetPipelineOutput)>, AssetError>)
    ensures
        match first_err_index(results@) {
            None => r matches Ok(pairs) && pairs@.len() == results@.len() && (forall|i: int|
                #![trigger pairs@[i]]
                0 <= i < results@.len() ==> pairs@[i].0 == results@[i].0 && results@[i].1 == Ok::<
                    TrunkAssetPipelineOutput,
                    AssetError,
                >(pairs@[i].1)),
            Some(k) => r matches Err(e) && results@[k].1 == Err::<
                TrunkAssetPipelineOutput,
                AssetError,
            >(e),
        },
{
    let ghost orig = results@;
    let mut remaining = results;
    let mut pairs: Vec<(usize, TrunkAssetPipelineOutput)> = Vec::new();
    proof {
        assert(remaining@ =~= orig.skip(0));
    }
    while remaining.len() > 0
        invariant
            orig.len() == pairs@.len() + remaining@.len(),
            remaining@ == orig.skip(pairs@.len() as int),
            forall|i: int|
                #![trigger pairs@[i]]
                0 <= i < pairs@.len() ==> pairs@[i].0 == orig[i].0 && orig[i].1 == Ok::<
                    TrunkAssetPipelineOutput,
                    AssetError,
                >(pairs@[i].1),
        decreases remaining@.len(),
    {
        let ghost k = pairs@.len() as int;
        proof {
            assert(remaining@[0] == orig.skip(k)[0]);
            assert(orig.skip(k)[0] == orig[k]);
        }
        let (id, res) = remaining.remove(0);
        match res {
            Ok(out) => {
                pairs.push((id, out));
                proof {
                    assert(remaining@ =~= orig.skip(k + 1));
                }
            },
            Err(e) => {
                proof {
                    lemma_first_err_index_spec(orig);
                    assert(orig[k].1 == Err::<TrunkAssetPipelineOutput, AssetError>(e));
                    match first_err_index(orig) {
                        None => {
                            assert(orig[k].1 matches Ok(_));
                        },
                        Some(m) => {
                            if m < k {
                                assert(pairs@[m] == pairs@[m]);
                                assert(orig[m].1 matches Ok(_));
                            } else if m > k {
                                assert(orig[k].1 matches Ok(_));
                            }
                        },
                    }
                    assert(first_err_index(orig) == Some(k));
                }
                return Err(e);
            },
        }
    }
    proof {
        lemma_first_err_index_spec(orig);
        match first_err_index(orig) {
            None => {
            },
            Some(m) => {
                assert(pairs@[m] == pairs@[m]);
                assert(orig[m].1 matches Ok(_));
            },
        }
        assert(first_err_index(orig) is None);
    }
    Ok(pairs)
}

} // verus!
