//! Aggregation of per-provider results into one canonical document: a
//! provider-keyed summary index, a flattened model list, a total count,
//! and a fixed schema version.

use vstd::prelude::*;
use crate::collections::{assoc_update, StrMap};
use crate::models::{clone_description, now_timestamp, ModelInfo, ModelType, ProviderInfo};
use vstd::string::StringExecFns;

verus! {

/// The per-provider entry of the aggregated document's index.
#[derive(Debug)]
pub struct ProviderSummary {
    pub provider_name: String,
    pub model_count: usize,
    pub last_updated: i64,
}

/// The ghost mirror of a summary.
pub struct SummaryView {
    pub provider_name: Seq<char>,
    pub model_count: usize,
    pub last_updated: i64,
}

impl View for ProviderSummary {
    type V = SummaryView;

    open spec fn view(&self) -> SummaryView {
        SummaryView {
            provider_name: self.provider_name@,
            model_count: self.model_count,
            last_updated: self.last_updated,
        }
    }
}

/// One model of the flattened list, tagged with its provider.
#[derive(Debug)]
pub struct AggregatedModel {
    pub provider_id: String,
    pub provider_name: String,
    pub id: String,
    pub name: String,
    pub context_length: u32,
    pub max_tokens: u32,
    pub vision: bool,
    pub function_call: bool,
    pub reasoning: bool,
    pub model_type: ModelType,
    pub description: Option<String>,
}

/// The canonical aggregated document.
#[derive(Debug)]
pub struct AggregatedOutput {
    pub version: String,
    /// Unix timestamp (seconds) of generation.
    pub generated_at: i64,
    pub providers: StrMap<ProviderSummary>,
    pub total_models: usize,
    pub all_models: Vec<AggregatedModel>,
}

/// Summary-map entries with summary views in place of summaries.
pub open spec fn summary_entries(s: Seq<(Seq<char>, ProviderSummary)>) -> Seq<
    (Seq<char>, SummaryView),
> {
    s.map_values(|p: (Seq<char>, ProviderSummary)| (p.0, p.1@))
}

/// Replacing under a key commutes with taking summary views.
proof fn lemma_summary_entries_update(
    s: Seq<(Seq<char>, ProviderSummary)>,
    k: Seq<char>,
    v: ProviderSummary,
)
    ensures
        summary_entries(crate::collections::assoc_update(s, k, v)) == assoc_update(
            summary_entries(s),
            k,
            v@,
        ),
    decreases s.len(),
{
    if s.len() == 0 {
        assert(summary_entries(crate::collections::assoc_update(s, k, v)) =~= assoc_update(
            summary_entries(s),
            k,
            v@,
        ));
    } else if s[0].0 == k {
        assert(summary_entries(crate::collections::assoc_update(s, k, v)) =~= assoc_update(
            summary_entries(s),
            k,
            v@,
        ));
    } else {
        lemma_summary_entries_update(s.drop_first(), k, v);
        assert(summary_entries(s).drop_first() =~= summary_entries(s.drop_first()));
        assert(summary_entries(crate::collections::assoc_update(s, k, v)) =~= assoc_update(
            summary_entries(s),
            k,
            v@,
        ));
    }
}

/// The summary a provider record stands for.
pub open spec fn summary_of(p: ProviderInfo) -> SummaryView {
    SummaryView {
        provider_name: p.provider_name@,
        model_count: p.models@.len() as usize,
        last_updated: p.last_updated,
    }
}

/// The summary index after entering every provider, keyed by provider
/// id; a later provider under an already-present id replaces the
/// earlier one.
pub open spec fn summaries_fold(ps: Seq<ProviderInfo>) -> Seq<(Seq<char>, SummaryView)>
    decreases ps.len(),
{
    if ps.len() == 0 {
        Seq::empty()
    } else {
        assoc_update(summaries_fold(ps.drop_last()), ps.last().provider@, summary_of(ps.last()))
    }
}

/// The total number of models over all providers.
pub open spec fn total_model_count(ps: Seq<ProviderInfo>) -> int
    decreases ps.len(),
{
    if ps.len() == 0 {
        0
    } else {
        total_model_count(ps.drop_last()) + ps.last().models@.len()
    }
}

/// The total over a prefix never exceeds the total.
pub proof fn lemma_total_prefix_le(ps: Seq<ProviderInfo>, i: int)
    requires
        0 <= i <= ps.len(),
    ensures
        total_model_count(ps.subrange(0, i)) <= total_model_count(ps),
    decreases ps.len() - i,
{
    if i == ps.len() {
        assert(ps.subrange(0, i) =~= ps);
    } else {
        lemma_total_prefix_le(ps, i + 1);
        let cur = ps.subrange(0, i + 1);
        assert(cur.drop_last() =~= ps.subrange(0, i));
        assert(total_model_count(ps.subrange(0, i)) <= total_model_count(cur));
    }
}

/// Every (provider, model) pair, providers in order, each provider's
/// models in order.
pub open spec fn flat_pairs(ps: Seq<ProviderInfo>) -> Seq<(ProviderInfo, ModelInfo)>
    decreases ps.len(),
{
    if ps.len() == 0 {
        Seq::empty()
    } else {
        flat_pairs(ps.drop_last()) + ps.last().models@.map_values(
            |m: ModelInfo| (ps.last(), m),
        )
    }
}

/// The flattened entry a (provider, model) pair stands for.
pub open spec fn agg_from(a: AggregatedModel, p: ProviderInfo, m: ModelInfo) -> bool {
    &&& a.provider_id == p.provider
    &&& a.provider_name == p.provider_name
    &&& a.id == m.id
    &&& a.name == m.name
    &&& a.context_length == m.context_length
    &&& a.max_tokens == m.max_tokens
    &&& a.vision == m.vision
    &&& a.function_call == m.function_call
    &&& a.reasoning == m.reasoning
    &&& a.model_type == m.model_type
    &&& a.description == m.description
}

/// Builds and writes the output documents; only the aggregation logic
/// lives here, the writing outside.
pub struct OutputManager {
    pub output_dir: String,
}

impl OutputManager {
    pub fn new(output_dir: String) -> (r: OutputManager)
        ensures
            r.output_dir == output_dir,
    {
        OutputManager { output_dir }
    }

    /// Merges the per-provider results into one document: a summary per
    /// provider, the total model count, and every model tagged with its
    /// provider, stamped with a fresh timestamp and the fixed schema
    /// version.
    pub fn create_aggregated_output(&self, providers: &Vec<ProviderInfo>) -> (r: AggregatedOutput)
        requires
            total_model_count(providers@) <= usize::MAX,
        ensures
            r.version@ == "1.0.0"@,
            r.total_models == total_model_count(providers@),
            r.providers.wf(),
            summary_entries(r.providers@) == summaries_fold(providers@),
            r.all_models@.len() == flat_pairs(providers@).len(),
            forall|i: int| 0 <= i < r.all_models@.len() ==> agg_from(
                #[trigger] r.all_models@[i],
                flat_pairs(providers@)[i].0,
                flat_pairs(providers@)[i].1,
            ),
    {
        let mut provider_summaries: StrMap<ProviderSummary> = StrMap::new();
        let mut all_models: Vec<AggregatedModel> = Vec::new();
        let mut total_models: usize = 0;
        let n = providers.len();
        proof {
            assert(providers@.subrange(0, 0) =~= Seq::<ProviderInfo>::empty());
            assert(summary_entries(Seq::<(Seq<char>, ProviderSummary)>::empty()) =~= Seq::<
                (Seq<char>, SummaryView),
            >::empty());
        }
        for i in 0..n
            invariant
                n == providers@.len(),
                total_model_count(providers@) <= usize::MAX,
                provider_summaries.wf(),
                summary_entries(provider_summaries@) == summaries_fold(
                    providers@.subrange(0, i as int),
                ),
                total_models == total_model_count(providers@.subrange(0, i as int)),
                all_models@.len() == flat_pairs(providers@.subrange(0, i as int)).len(),
                forall|k: int| 0 <= k < all_models@.len() ==> agg_from(
                    #[trigger] all_models@[k],
                    flat_pairs(providers@.subrange(0, i as int))[k].0,
                    flat_pairs(providers@.subrange(0, i as int))[k].1,
                ),
        {
            let p = &providers[i];
            proof {
                let cur = providers@.subrange(0, i + 1 as int);
                assert(cur.drop_last() =~= providers@.subrange(0, i as int));
                assert(cur.last() == providers@[i as int]);
                lemma_total_prefix_le(providers@, i + 1 as int);
            }
            let summary = ProviderSummary {
                provider_name: p.provider_name.clone(),
                model_count: p.models.len(),
                last_updated: p.last_updated,
            };
            let ghost s_pre = provider_summaries@;
            provider_summaries.insert(p.provider.clone(), summary);
            proof {
                lemma_summary_entries_update(s_pre, p.provider@, summary);
            }
            total_models = total_models + p.models.len();
            let ghost base_pairs = flat_pairs(providers@.subrange(0, i as int));
            let m = p.models.len();
            for j in 0..m
                invariant
                    n == providers@.len(),
                    i < n,
                    m == providers@[i as int].models@.len(),
                    p == &providers@[i as int],
                    base_pairs == flat_pairs(providers@.subrange(0, i as int)),
                    all_models@.len() == base_pairs.len() + j,
                    forall|k: int| 0 <= k < base_pairs.len() ==> agg_from(
                        #[trigger] all_models@[k],
                        base_pairs[k].0,
                        base_pairs[k].1,
                    ),
                    forall|k: int| 0 <= k < j ==> agg_from(
                        #[trigger] all_models@[base_pairs.len() + k],
                        providers@[i as int],
                        providers@[i as int].models@[k],
                    ),
            {
                let model = &p.models[j];
                let aggregated_model = AggregatedModel {
                    provider_id: p.provider.clone(),
                    provider_name: p.provider_name.clone(),
                    id: model.id.clone(),
                    name: model.name.clone(),
                    context_length: model.context_length,
                    max_tokens: model.max_tokens,
                    vision: model.vision,
                    function_call: model.function_call,
                    reasoning: model.reasoning,
                    model_type: model.model_type,
                    description: clone_description(&model.description),
                };
                all_models.push(aggregated_model);
            }
            proof {
                let cur = providers@.subrange(0, i + 1 as int);
                let pcur = providers@[i as int];
                assert(cur.drop_last() =~= providers@.subrange(0, i as int));
                assert(cur.last() == pcur);
                assert(flat_pairs(cur) =~= base_pairs + pcur.models@.map_values(
                    |mm: ModelInfo| (pcur, mm),
                ));
                assert forall|k: int| 0 <= k < all_models@.len() implies agg_from(
                    #[trigger] all_models@[k],
                    flat_pairs(cur)[k].0,
                    flat_pairs(cur)[k].1,
                ) by {
                    if k >= base_pairs.len() {
                        let k2 = k - base_pairs.len();
                        assert(flat_pairs(cur)[k] == pcur.models@.map_values(
                            |mm: ModelInfo| (pcur, mm),
                        )[k2]);
                        assert(pcur.models@.map_values(|mm: ModelInfo| (pcur, mm))[k2] == (
                        pcur,
                        pcur.models@[k2],
                        ));
                        assert(agg_from(
                            all_models@[base_pairs.len() + k2],
                            providers@[i as int],
                            providers@[i as int].models@[k2],
                        ));
                    }
                }
            }
        }
        proof {
            assert(providers@.subrange(0, n as int) =~= providers@);
        }
        AggregatedOutput {
            version: String::from_str("1.0.0"),
            generated_at: now_timestamp(),
            providers: provider_summaries,
            total_models,
            all_models,
        }
    }
}

pub struct DataAggregator;

impl DataAggregator {
    /// Merges provider results through a fresh output manager.
    pub fn aggregate_providers(providers: &Vec<ProviderInfo>) -> (r: AggregatedOutput)
        requires
            total_model_count(providers@) <= usize::MAX,
        ensures
            r.version@ == "1.0.0"@,
            r.total_models == total_model_count(providers@),
            r.providers.wf(),
            summary_entries(r.providers@) == summaries_fold(providers@),
            r.all_models@.len() == flat_pairs(providers@).len(),
            forall|i: int| 0 <= i < r.all_models@.len() ==> agg_from(
                #[trigger] r.all_models@[i],
                flat_pairs(providers@)[i].0,
                flat_pairs(providers@)[i].1,
            ),
    {
        let output_manager = OutputManager::new(String::new());
        output_manager.create_aggregated_output(providers)
    }
}

} // verus!
