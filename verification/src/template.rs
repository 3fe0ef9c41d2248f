//! Curated template records and the template/live-API reconciliation
//! algorithm: building the id and match-pattern lookups, emitting the
//! whole template set when no live listing is available, and merging a
//! live id list against the pattern lookup.  The lookups carry each
//! template's canonical record, converted once on entry.

use vstd::prelude::*;
use crate::collections::{assoc_get, lemma_assoc_update_absent, StrMap};
use crate::heuristics::{spec_template_model_type, template_model_type};
use crate::models::{clone_description, ModelInfo};
use crate::text::str_eq;

verus! {

/// A curated model record plus the alternate identifiers under which a
/// live API may expose the same model.  The record's own id counts as a
/// match pattern as well.
#[derive(Debug)]
pub struct TemplateModel {
    pub id: String,
    pub name: String,
    pub context_length: u32,
    pub max_tokens: u32,
    pub vision: bool,
    pub function_call: bool,
    pub reasoning: bool,
    pub model_type: String,
    pub description: Option<String>,
    pub match_patterns: Vec<String>,
}

/// The canonical record a template stands for, under the template's own
/// id.
pub open spec fn spec_convert_template(t: TemplateModel) -> ModelInfo {
    ModelInfo {
        id: t.id,
        name: t.name,
        context_length: t.context_length,
        max_tokens: t.max_tokens,
        vision: t.vision,
        function_call: t.function_call,
        reasoning: t.reasoning,
        model_type: spec_template_model_type(t.model_type@),
        description: t.description,
    }
}

/// Converts one curated template to its canonical record.
pub fn convert_template_model(t: &TemplateModel) -> (r: ModelInfo)
    ensures
        r == spec_convert_template(*t),
{
    ModelInfo::new(
        t.id.clone(),
        t.name.clone(),
        t.context_length,
        t.max_tokens,
        t.vision,
        t.function_call,
        t.reasoning,
        template_model_type(t.model_type.as_str()),
        clone_description(&t.description),
    )
}

/// A record with its id overridden to a live id, metadata kept.
pub open spec fn with_id(m: ModelInfo, id: String) -> ModelInfo {
    ModelInfo { id: id, ..m }
}

/// The id lookup after entering each template under its own id, in
/// order; a later template under an already-present id replaces the
/// earlier one.
pub open spec fn id_entries(ts: Seq<TemplateModel>) -> Seq<(Seq<char>, ModelInfo)>
    decreases ts.len(),
{
    if ts.len() == 0 {
        Seq::empty()
    } else {
        crate::collections::assoc_update(
            id_entries(ts.drop_last()),
            ts.last().id@,
            spec_convert_template(ts.last()),
        )
    }
}

/// Builds the id lookup.
pub fn build_id_map(ts: &Vec<TemplateModel>) -> (r: StrMap<ModelInfo>)
    ensures
        r@ == id_entries(ts@),
        r.wf(),
{
    let mut r: StrMap<ModelInfo> = StrMap::new();
    let n = ts.len();
    proof {
        assert(ts@.subrange(0, 0) =~= Seq::<TemplateModel>::empty());
    }
    for i in 0..n
        invariant
            n == ts@.len(),
            r.wf(),
            r@ == id_entries(ts@.subrange(0, i as int)),
    {
        let t = &ts[i];
        r.insert(t.id.clone(), convert_template_model(t));
        proof {
            let pre = ts@.subrange(0, i as int);
            let cur = ts@.subrange(0, i + 1 as int);
            assert(cur.drop_last() =~= pre);
            assert(cur.last() == ts@[i as int]);
        }
    }
    proof {
        assert(ts@.subrange(0, n as int) =~= ts@);
    }
    r
}

/// `ps` holds a string whose characters are `id`.
pub open spec fn seq_contains_string(ps: Seq<String>, id: Seq<char>) -> bool {
    exists|i: int| 0 <= i < ps.len() && ps[i]@ == id
}

/// Membership test for a string among a vector of strings.
pub fn vec_contains_string(ps: &Vec<String>, id: &str) -> (b: bool)
    ensures
        b == seq_contains_string(ps@, id@),
{
    let n = ps.len();
    for i in 0..n
        invariant
            n == ps@.len(),
            forall|k: int| 0 <= k < i ==> ps@[k]@ != id@,
    {
        if str_eq(ps[i].as_str(), id) {
            return true;
        }
    }
    false
}

/// First-write-wins addition to the pattern lookup.
pub open spec fn add_if_absent(
    acc: Seq<(Seq<char>, ModelInfo)>,
    k: Seq<char>,
    m: ModelInfo,
) -> Seq<(Seq<char>, ModelInfo)> {
    if assoc_get(acc, k) is Some {
        acc
    } else {
        acc.push((k, m))
    }
}

/// The pattern lookup after adding the first `n` explicit patterns of
/// `t`, earlier entries winning.
pub open spec fn add_patterns(
    acc: Seq<(Seq<char>, ModelInfo)>,
    t: TemplateModel,
    n: int,
) -> Seq<(Seq<char>, ModelInfo)>
    decreases n,
{
    if n <= 0 {
        acc
    } else {
        add_if_absent(
            add_patterns(acc, t, n - 1),
            t.match_patterns@[n - 1]@,
            spec_convert_template(t),
        )
    }
}

/// The pattern lookup after processing one template: its explicit
/// patterns in order, then its own id unless the id is already listed
/// among its patterns.
pub open spec fn add_one_template(
    acc: Seq<(Seq<char>, ModelInfo)>,
    t: TemplateModel,
) -> Seq<(Seq<char>, ModelInfo)> {
    let a = add_patterns(acc, t, t.match_patterns@.len() as int);
    if seq_contains_string(t.match_patterns@, t.id@) {
        a
    } else {
        add_if_absent(a, t.id@, spec_convert_template(t))
    }
}

/// The pattern lookup over a whole template list.
pub open spec fn pattern_entries(ts: Seq<TemplateModel>) -> Seq<(Seq<char>, ModelInfo)>
    decreases ts.len(),
{
    if ts.len() == 0 {
        Seq::empty()
    } else {
        add_one_template(pattern_entries(ts.drop_last()), ts.last())
    }
}

/// Builds the match-pattern lookup, first write winning on collisions.
pub fn build_pattern_map(ts: &Vec<TemplateModel>) -> (r: StrMap<ModelInfo>)
    ensures
        r@ == pattern_entries(ts@),
        r.wf(),
{
    let mut r: StrMap<ModelInfo> = StrMap::new();
    let n = ts.len();
    proof {
        assert(ts@.subrange(0, 0) =~= Seq::<TemplateModel>::empty());
    }
    for i in 0..n
        invariant
            n == ts@.len(),
            r.wf(),
            r@ == pattern_entries(ts@.subrange(0, i as int)),
    {
        let t = &ts[i];
        let ghost acc = r@;
        let m = t.match_patterns.len();
        for j in 0..m
            invariant
                n == ts@.len(),
                i < n,
                m == ts@[i as int].match_patterns@.len(),
                t == &ts[i as int],
                r.wf(),
                r@ == add_patterns(acc, ts@[i as int], j as int),
        {
            r.insert_if_absent(t.match_patterns[j].clone(), convert_template_model(t));
        }
        if !vec_contains_string(&t.match_patterns, t.id.as_str()) {
            r.insert_if_absent(t.id.clone(), convert_template_model(t));
        }
        proof {
            let pre = ts@.subrange(0, i as int);
            let cur = ts@.subrange(0, i + 1 as int);
            assert(cur.drop_last() =~= pre);
            assert(cur.last() == ts@[i as int]);
        }
    }
    proof {
        assert(ts@.subrange(0, n as int) =~= ts@);
    }
    r
}

/// The values of a lookup, in lookup order.
pub open spec fn all_values(entries: Seq<(Seq<char>, ModelInfo)>) -> Seq<ModelInfo> {
    entries.map_values(|p: (Seq<char>, ModelInfo)| p.1)
}

/// Emits every record of a lookup, in order.
pub fn emit_all(store: &StrMap<ModelInfo>) -> (r: Vec<ModelInfo>)
    ensures
        r@ == all_values(store@),
{
    let mut r: Vec<ModelInfo> = Vec::new();
    let n = store.len();
    for i in 0..n
        invariant
            n == store@.len(),
            r@ == all_values(store@.subrange(0, i as int)),
    {
        let e = store.idx(i);
        r.push(e.1.duplicate());
        proof {
            assert(r@ =~= all_values(store@.subrange(0, i + 1 as int)));
        }
    }
    proof {
        assert(store@.subrange(0, n as int) =~= store@);
        assert(r@ =~= all_values(store@));
    }
    r
}

/// The models emitted for the live ids that match the pattern lookup, in
/// live order: curated metadata with the id overridden to the live id.
pub open spec fn matched_of(pat: Seq<(Seq<char>, ModelInfo)>, ids: Seq<String>) -> Seq<ModelInfo>
    decreases ids.len(),
{
    if ids.len() == 0 {
        Seq::empty()
    } else {
        let rest = matched_of(pat, ids.drop_first());
        match assoc_get(pat, ids[0]@) {
            Some(m) => seq![with_id(m, ids[0])] + rest,
            None => rest,
        }
    }
}

/// The live ids absent from the pattern lookup, in live order.
pub open spec fn unmatched_of(pat: Seq<(Seq<char>, ModelInfo)>, ids: Seq<String>) -> Seq<String>
    decreases ids.len(),
{
    if ids.len() == 0 {
        Seq::empty()
    } else {
        let rest = unmatched_of(pat, ids.drop_first());
        match assoc_get(pat, ids[0]@) {
            Some(_) => rest,
            None => seq![ids[0]] + rest,
        }
    }
}

/// Walks the live ids once: matched ids yield curated records under the
/// live id, the rest are returned for the adapter's own unmatched policy.
pub fn reconcile_live_ids(store: &StrMap<ModelInfo>, live_ids: &Vec<String>) -> (r: (
    Vec<ModelInfo>,
    Vec<String>,
))
    ensures
        r.0@ == matched_of(store@, live_ids@),
        r.1@ == unmatched_of(store@, live_ids@),
{
    let mut matched: Vec<ModelInfo> = Vec::new();
    let mut unmatched: Vec<String> = Vec::new();
    let n = live_ids.len();
    proof {
        assert(live_ids@.skip(0) =~= live_ids@);
    }
    for i in 0..n
        invariant
            n == live_ids@.len(),
            matched_of(store@, live_ids@) == matched@ + matched_of(
                store@,
                live_ids@.skip(i as int),
            ),
            unmatched_of(store@, live_ids@) == unmatched@ + unmatched_of(
                store@,
                live_ids@.skip(i as int),
            ),
    {
        proof {
            assert(live_ids@.skip(i as int)[0] == live_ids@[i as int]);
            assert(live_ids@.skip(i as int).drop_first() =~= live_ids@.skip(i + 1 as int));
        }
        let id = &live_ids[i];
        match store.get(id.as_str()) {
            Some(found) => {
                let mut m = found.duplicate();
                m.id = id.clone();
                matched.push(m);
                proof {
                    let head = seq![
                        with_id(assoc_get(store@, live_ids@[i as int]@)->0, live_ids@[i as int]),
                    ];
                    assert(matched@ =~= matched@.subrange(0, matched@.len() - 1) + head);
                    assert(matched@.subrange(0, matched@.len() - 1) + (head + matched_of(
                        store@,
                        live_ids@.skip(i + 1 as int),
                    )) =~= matched@ + matched_of(store@, live_ids@.skip(i + 1 as int)));
                }
            },
            None => {
                unmatched.push(id.clone());
                proof {
                    let head = seq![live_ids@[i as int]];
                    assert(unmatched@ =~= unmatched@.subrange(0, unmatched@.len() - 1) + head);
                    assert(unmatched@.subrange(0, unmatched@.len() - 1) + (head + unmatched_of(
                        store@,
                        live_ids@.skip(i + 1 as int),
                    )) =~= unmatched@ + unmatched_of(store@, live_ids@.skip(i + 1 as int)));
                }
            },
        }
    }
    proof {
        assert(live_ids@.skip(n as int) =~= Seq::<String>::empty());
        assert(matched@ + Seq::<ModelInfo>::empty() =~= matched@);
        assert(unmatched@ + Seq::<String>::empty() =~= unmatched@);
    }
    (matched, unmatched)
}

/// With pairwise-distinct template ids, the id lookup lists the
/// templates in order, each converted under its own id.
pub proof fn lemma_id_entries_distinct(ts: Seq<TemplateModel>)
    requires
        forall|i: int, j: int| 0 <= i < j < ts.len() ==> (#[trigger] ts[i]).id@ != (
        #[trigger] ts[j]).id@,
    ensures
        id_entries(ts) == ts.map_values(|t: TemplateModel| (t.id@, spec_convert_template(t))),
    decreases ts.len(),
{
    let m = ts.map_values(|t: TemplateModel| (t.id@, spec_convert_template(t)));
    if ts.len() == 0 {
        assert(id_entries(ts) =~= m);
    } else {
        let front = ts.drop_last();
        let last = ts.last();
        assert forall|i: int, j: int| 0 <= i < j < front.len() implies (#[trigger] front[i]).id@
            != (#[trigger] front[j]).id@ by {
            assert(front[i] == ts[i]);
            assert(front[j] == ts[j]);
        }
        lemma_id_entries_distinct(front);
        let fm = front.map_values(|t: TemplateModel| (t.id@, spec_convert_template(t)));
        assert forall|j: int| 0 <= j < fm.len() implies (#[trigger] fm[j]).0 != last.id@ by {
            assert(front[j] == ts[j]);
            assert(ts[j].id@ != ts[ts.len() - 1].id@);
        }
        lemma_assoc_update_absent(fm, last.id@, spec_convert_template(last));
        assert(fm.push((last.id@, spec_convert_template(last))) =~= m);
    }
}

/// When the live id list is empty, a template-reconciled adapter with
/// pairwise-distinct template ids emits one model per template, in
/// template order, each carrying its template's own id and curated
/// metadata.
pub proof fn lemma_empty_live_emits_templates(ts: Seq<TemplateModel>)
    requires
        forall|i: int, j: int| 0 <= i < j < ts.len() ==> (#[trigger] ts[i]).id@ != (
        #[trigger] ts[j]).id@,
    ensures
        all_values(id_entries(ts)).len() == ts.len(),
        forall|i: int| 0 <= i < ts.len() ==> #[trigger] all_values(id_entries(ts))[i]
            == spec_convert_template(ts[i]),
        forall|i: int| 0 <= i < ts.len() ==> (#[trigger] all_values(id_entries(ts))[i]).id == ts[
            i
        ].id,
{
    lemma_id_entries_distinct(ts);
}

/// For every live id found in the pattern lookup, the reconciled output
/// holds a model whose id is the live id and whose remaining fields are
/// exactly the matched template's curated metadata.
pub proof fn lemma_matched_keeps_curated(pat: Seq<(Seq<char>, ModelInfo)>, ids: Seq<String>, i: int)
    requires
        0 <= i < ids.len(),
        assoc_get(pat, ids[i]@) is Some,
    ensures
        exists|j: int| 0 <= j < matched_of(pat, ids).len() && matched_of(pat, ids)[j] == with_id(
            assoc_get(pat, ids[i]@)->0,
            ids[i],
        ),
    decreases i,
{
    let out = matched_of(pat, ids);
    let target = with_id(assoc_get(pat, ids[i]@)->0, ids[i]);
    if i == 0 {
        assert(out[0] == target);
    } else {
        let tail = ids.drop_first();
        assert(tail[i - 1] == ids[i]);
        lemma_matched_keeps_curated(pat, tail, i - 1);
        let j0 = choose|j: int|
            0 <= j < matched_of(pat, tail).len() && matched_of(pat, tail)[j] == with_id(
                assoc_get(pat, tail[i - 1]@)->0,
                tail[i - 1],
            );
        match assoc_get(pat, ids[0]@) {
            Some(_) => {
                assert(out[j0 + 1] == matched_of(pat, tail)[j0]);
            },
            None => {
                assert(out[j0] == matched_of(pat, tail)[j0]);
            },
        }
    }
}

} // verus!
