//! The PPInfra adapter: a clean REST catalog with per-model feature
//! lists from which capability flags are read.

use vstd::prelude::*;
use crate::models::{ModelInfo, ModelType};
use crate::text::{seq_any_contains, str_eq, vec_any_contains};
use vstd::string::StringExecFns;

verus! {

/// One model record of the PPInfra catalog response.
#[derive(Debug)]
pub struct PPInfraModel {
    pub id: String,
    pub display_name: String,
    pub context_size: u32,
    pub max_output_tokens: u32,
    pub features: Vec<String>,
    pub model_type: String,
}

/// The PPInfra catalog response.
#[derive(Debug)]
pub struct PPInfraResponse {
    pub data: Vec<PPInfraModel>,
}

pub open spec fn spec_ppinfra_type(s: Seq<char>) -> ModelType {
    if s == "chat"@ {
        ModelType::Chat
    } else if s == "completion"@ {
        ModelType::Completion
    } else if s == "embedding"@ {
        ModelType::Embedding
    } else {
        ModelType::Chat
    }
}

/// The normalized record for one PPInfra model.
pub open spec fn ppinfra_model_matches(m: ModelInfo, p: PPInfraModel) -> bool {
    &&& m.id == p.id
    &&& m.name == p.display_name
    &&& m.context_length == p.context_size
    &&& m.max_tokens == p.max_output_tokens
    &&& m.vision == (seq_any_contains(p.features@, "vision"@) || seq_any_contains(
        p.features@,
        "image"@,
    ))
    &&& m.function_call == (seq_any_contains(p.features@, "function"@) || seq_any_contains(
        p.features@,
        "tool"@,
    ))
    &&& m.reasoning == (seq_any_contains(p.features@, "reasoning"@) || seq_any_contains(
        p.features@,
        "thinking"@,
    ))
    &&& m.model_type == spec_ppinfra_type(p.model_type@)
    &&& m.description is None
}

/// The PPInfra adapter; no credential is needed.
pub struct PPInfraProvider {
    pub api_url: String,
}

impl PPInfraProvider {
    pub fn new(api_url: String) -> (r: PPInfraProvider)
        ensures
            r.api_url == api_url,
    {
        PPInfraProvider { api_url }
    }

    pub fn provider_id(&self) -> (r: &'static str)
        ensures
            r@ == "ppinfra"@,
    {
        "ppinfra"
    }

    pub fn provider_name(&self) -> (r: &'static str)
        ensures
            r@ == "PPInfra"@,
    {
        "PPInfra"
    }

    /// Converts one catalog record to its canonical form.
    pub fn convert_model(&self, model: &PPInfraModel) -> (m: ModelInfo)
        ensures
            ppinfra_model_matches(m, *model),
    {
        let vision = vec_any_contains(&model.features, "vision") || vec_any_contains(
            &model.features,
            "image",
        );
        let function_call = vec_any_contains(&model.features, "function") || vec_any_contains(
            &model.features,
            "tool",
        );
        let reasoning = vec_any_contains(&model.features, "reasoning") || vec_any_contains(
            &model.features,
            "thinking",
        );
        let model_type = if str_eq(model.model_type.as_str(), "chat") {
            ModelType::Chat
        } else if str_eq(model.model_type.as_str(), "completion") {
            ModelType::Completion
        } else if str_eq(model.model_type.as_str(), "embedding") {
            ModelType::Embedding
        } else {
            ModelType::Chat
        };
        ModelInfo::new(
            model.id.clone(),
            model.display_name.clone(),
            model.context_size,
            model.max_output_tokens,
            vision,
            function_call,
            reasoning,
            model_type,
            None,
        )
    }

    /// Normalizes a whole catalog response, in order.
    pub fn models_from_response(&self, resp: &PPInfraResponse) -> (r: Vec<ModelInfo>)
        ensures
            r@.len() == resp.data@.len(),
            forall|i: int| 0 <= i < r@.len() ==> ppinfra_model_matches(
                #[trigger] r@[i],
                resp.data@[i],
            ),
    {
        let mut r: Vec<ModelInfo> = Vec::new();
        let n = resp.data.len();
        for i in 0..n
            invariant
                n == resp.data@.len(),
                r@.len() == i,
                forall|k: int| 0 <= k < i ==> ppinfra_model_matches(
                    #[trigger] r@[k],
                    resp.data@[k],
                ),
        {
            let m = self.convert_model(&resp.data[i]);
            r.push(m);
        }
        r
    }
}

} // verus!
