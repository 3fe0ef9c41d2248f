//! The Vercel AI Gateway adapter: a REST catalog with native context
//! and max-token fields; capability flags come from keywords over id,
//! name, description and tags.

use vstd::prelude::*;
use crate::models::{ModelInfo, ModelType};
use crate::text::{contains_seq, lower_seq, seq_any_contains, str_contains_in_lower, str_eq, vec_any_contains};

verus! {

/// The pricing block of a Vercel record.
#[derive(Debug)]
pub struct VercelPricing {
    pub input: String,
    pub output: String,
    pub input_cache_read: Option<String>,
    pub input_cache_write: Option<String>,
}

/// One model record of the Vercel catalog response.
#[derive(Debug)]
pub struct VercelModel {
    pub id: String,
    pub object: String,
    pub created: i64,
    pub owned_by: String,
    pub name: String,
    pub description: String,
    pub context_window: u32,
    pub max_tokens: u32,
    pub model_type: String,
    pub pricing: VercelPricing,
    pub tags: Vec<String>,
}

/// The Vercel catalog response.
#[derive(Debug)]
pub struct VercelResponse {
    pub object: String,
    pub data: Vec<VercelModel>,
}

pub open spec fn vercel_vision(v: VercelModel) -> bool {
    ||| contains_seq(lower_seq(v.id@), "vision"@)
    ||| contains_seq(lower_seq(v.name@), "vision"@)
    ||| contains_seq(lower_seq(v.description@), "vision"@)
    ||| contains_seq(lower_seq(v.description@), "image"@)
    ||| seq_any_contains(v.tags@, "image"@)
    ||| seq_any_contains(v.tags@, "vision"@)
}

pub open spec fn vercel_function_call(v: VercelModel) -> bool {
    ||| contains_seq(lower_seq(v.id@), "function"@)
    ||| contains_seq(lower_seq(v.name@), "function"@)
    ||| contains_seq(lower_seq(v.description@), "function"@)
    ||| contains_seq(lower_seq(v.description@), "tool"@)
    ||| seq_any_contains(v.tags@, "function"@)
    ||| seq_any_contains(v.tags@, "tool"@)
}

pub open spec fn vercel_reasoning(v: VercelModel) -> bool {
    ||| contains_seq(lower_seq(v.id@), "reasoning"@)
    ||| contains_seq(lower_seq(v.name@), "reasoning"@)
    ||| contains_seq(lower_seq(v.description@), "reasoning"@)
    ||| contains_seq(lower_seq(v.description@), "thinking"@)
    ||| seq_any_contains(v.tags@, "reasoning"@)
    ||| seq_any_contains(v.tags@, "thinking"@)
}

pub open spec fn spec_vercel_type(s: Seq<char>) -> ModelType {
    if s == "language"@ {
        ModelType::Chat
    } else if s == "embedding"@ {
        ModelType::Embedding
    } else if s == "completion"@ {
        ModelType::Completion
    } else {
        ModelType::Chat
    }
}

/// The normalized record for one Vercel model.
pub open spec fn vercel_model_matches(m: ModelInfo, v: VercelModel) -> bool {
    &&& m.id == v.id
    &&& m.name == v.name
    &&& m.context_length == v.context_window
    &&& m.max_tokens == v.max_tokens
    &&& m.vision == vercel_vision(v)
    &&& m.function_call == vercel_function_call(v)
    &&& m.reasoning == vercel_reasoning(v)
    &&& m.model_type == spec_vercel_type(v.model_type@)
    &&& m.description == Some(v.description)
}

/// The Vercel adapter; no credential is needed.
pub struct VercelProvider {
    pub api_url: String,
}

impl VercelProvider {
    pub fn new(api_url: String) -> (r: VercelProvider)
        ensures
            r.api_url == api_url,
    {
        VercelProvider { api_url }
    }

    pub fn provider_id(&self) -> (r: &'static str)
        ensures
            r@ == "vercel"@,
    {
        "vercel"
    }

    pub fn provider_name(&self) -> (r: &'static str)
        ensures
            r@ == "Vercel AI Gateway"@,
    {
        "Vercel AI Gateway"
    }

    /// Converts one catalog record to its canonical form.
    pub fn convert_model(&self, model: &VercelModel) -> (m: ModelInfo)
        ensures
            vercel_model_matches(m, *model),
    {
        let vision = str_contains_in_lower(model.id.as_str(), "vision") || str_contains_in_lower(
            model.name.as_str(),
            "vision",
        ) || str_contains_in_lower(model.description.as_str(), "vision")
            || str_contains_in_lower(model.description.as_str(), "image") || vec_any_contains(
            &model.tags,
            "image",
        ) || vec_any_contains(&model.tags, "vision");

        let function_call = str_contains_in_lower(model.id.as_str(), "function")
            || str_contains_in_lower(model.name.as_str(), "function") || str_contains_in_lower(
            model.description.as_str(),
            "function",
        ) || str_contains_in_lower(model.description.as_str(), "tool") || vec_any_contains(
            &model.tags,
            "function",
        ) || vec_any_contains(&model.tags, "tool");

        let reasoning = str_contains_in_lower(model.id.as_str(), "reasoning")
            || str_contains_in_lower(model.name.as_str(), "reasoning") || str_contains_in_lower(
            model.description.as_str(),
            "reasoning",
        ) || str_contains_in_lower(model.description.as_str(), "thinking") || vec_any_contains(
            &model.tags,
            "reasoning",
        ) || vec_any_contains(&model.tags, "thinking");

        let model_type = if str_eq(model.model_type.as_str(), "language") {
            ModelType::Chat
        } else if str_eq(model.model_type.as_str(), "embedding") {
            ModelType::Embedding
        } else if str_eq(model.model_type.as_str(), "completion") {
            ModelType::Completion
        } else {
            ModelType::Chat
        };

        ModelInfo::new(
            model.id.clone(),
            model.name.clone(),
            model.context_window,
            model.max_tokens,
            vision,
            function_call,
            reasoning,
            model_type,
            Some(model.description.clone()),
        )
    }

    /// Normalizes a whole catalog response, in order.
    pub fn models_from_response(&self, resp: &VercelResponse) -> (r: Vec<ModelInfo>)
        ensures
            r@.len() == resp.data@.len(),
            forall|i: int| 0 <= i < r@.len() ==> vercel_model_matches(
                #[trigger] r@[i],
                resp.data@[i],
            ),
    {
        let mut r: Vec<ModelInfo> = Vec::new();
        let n = resp.data.len();
        for i in 0..n
            invariant
                n == resp.data@.len(),
                r@.len() == i,
                forall|k: int| 0 <= k < i ==> vercel_model_matches(
                    #[trigger] r@[k],
                    resp.data@[k],
                ),
        {
            let m = self.convert_model(&resp.data[i]);
            r.push(m);
        }
        r
    }
}

} // verus!
