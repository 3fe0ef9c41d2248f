//! The Anthropic adapter: a strict curated catalog.  With no live id
//! list every template is served; with one, only live ids that name a
//! curated template are served, and unmatched live ids are dropped.

use vstd::prelude::*;
use crate::collections::{assoc_get, StrMap};
use crate::models::ModelInfo;
use crate::template::{
    all_values, build_id_map, convert_template_model, emit_all, id_entries, spec_convert_template,
    TemplateModel,
};
use vstd::string::StringExecFns;

verus! {

/// The records served for the live ids that name a template, in live
/// order; unmatched ids contribute nothing.
pub open spec fn matched_by_id_of(
    entries: Seq<(Seq<char>, ModelInfo)>,
    ids: Seq<String>,
) -> Seq<ModelInfo>
    decreases ids.len(),
{
    if ids.len() == 0 {
        Seq::empty()
    } else {
        let rest = matched_by_id_of(entries, ids.drop_first());
        match assoc_get(entries, ids[0]@) {
            Some(m) => seq![m] + rest,
            None => rest,
        }
    }
}

/// The Anthropic adapter; a credential is optional, and without one the
/// curated templates alone are served.
pub struct AnthropicProvider {
    pub api_url: String,
    pub api_key: Option<String>,
}

impl AnthropicProvider {
    pub fn new(api_key: Option<String>) -> (r: AnthropicProvider)
        ensures
            r.api_key == api_key,
            r.api_url@ == "https://api.anthropic.com/v1/models"@,
    {
        AnthropicProvider {
            api_url: String::from_str("https://api.anthropic.com/v1/models"),
            api_key,
        }
    }

    pub fn provider_id(&self) -> (r: &'static str)
        ensures
            r@ == "anthropic"@,
    {
        "anthropic"
    }

    pub fn provider_name(&self) -> (r: &'static str)
        ensures
            r@ == "Anthropic"@,
    {
        "Anthropic"
    }

    /// Converts one curated template to its canonical record.
    pub fn convert_template_model(&self, template: &TemplateModel) -> (r: ModelInfo)
        ensures
            r == spec_convert_template(*template),
    {
        convert_template_model(template)
    }

    /// Reconciles the curated templates against the live id list: with
    /// no live ids every template is served; otherwise only live ids
    /// naming a template are, in live order, and the rest are dropped.
    pub fn reconcile_models(&self, templates: &Vec<TemplateModel>, live_ids: &Vec<String>) -> (r:
        Vec<ModelInfo>)
        ensures
            live_ids@.len() == 0 ==> r@ == all_values(id_entries(templates@)),
            live_ids@.len() > 0 ==> r@ == matched_by_id_of(id_entries(templates@), live_ids@),
    {
        let id_map = build_id_map(templates);
        if live_ids.len() == 0 {
            emit_all(&id_map)
        } else {
            let mut result: Vec<ModelInfo> = Vec::new();
            let n = live_ids.len();
            proof {
                assert(live_ids@.skip(0) =~= live_ids@);
            }
            for i in 0..n
                invariant
                    n == live_ids@.len(),
                    id_map@ == id_entries(templates@),
                    matched_by_id_of(id_map@, live_ids@) == result@ + matched_by_id_of(
                        id_map@,
                        live_ids@.skip(i as int),
                    ),
            {
                proof {
                    assert(live_ids@.skip(i as int)[0] == live_ids@[i as int]);
                    assert(live_ids@.skip(i as int).drop_first() =~= live_ids@.skip(i + 1 as int));
                }
                match id_map.get(live_ids[i].as_str()) {
                    Some(found) => {
                        result.push(found.duplicate());
                        proof {
                            let head = seq![assoc_get(id_map@, live_ids@[i as int]@)->0];
                            assert(result@ =~= result@.subrange(0, result@.len() - 1) + head);
                            assert(result@.subrange(0, result@.len() - 1) + (head
                                + matched_by_id_of(id_map@, live_ids@.skip(i + 1 as int))) =~=
                            result@ + matched_by_id_of(id_map@, live_ids@.skip(i + 1 as int)));
                        }
                    },
                    None => {},
                }
            }
            proof {
                assert(live_ids@.skip(n as int) =~= Seq::<String>::empty());
                assert(result@ + Seq::<ModelInfo>::empty() =~= result@);
            }
            result
        }
    }
}

} // verus!
