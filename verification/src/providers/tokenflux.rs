//! The Tokenflux adapter: a REST catalog whose records carry modality
//! and parameter lists; the max-token budget is estimated from the
//! context length by the shared tier rule.

use vstd::prelude::*;
use crate::heuristics::{estimate_max_tokens, spec_estimate_max_tokens};
use crate::models::{ModelInfo, ModelType};
use crate::text::{
    contains_seq, lower_seq, seq_any_contains, str_contains_in_lower, str_eq, vec_any_contains,
};

verus! {

/// The architecture block of a Tokenflux record.
#[derive(Debug)]
pub struct TokenfluxArchitecture {
    pub input_modalities: Option<Vec<String>>,
}

/// One model record of the Tokenflux catalog response.
#[derive(Debug)]
pub struct TokenfluxModel {
    pub id: String,
    pub name: String,
    pub model_type: String,
    pub description: String,
    pub context_length: u32,
    pub architecture: Option<TokenfluxArchitecture>,
    pub supported_parameters: Option<Vec<String>>,
}

/// The Tokenflux catalog response.
#[derive(Debug)]
pub struct TokenfluxResponse {
    pub data: Vec<TokenfluxModel>,
}

pub open spec fn tf_vision(t: TokenfluxModel) -> bool {
    let arch_hit = match t.architecture {
        Some(a) => match a.input_modalities {
            Some(ms) => seq_any_contains(ms@, "image"@) || seq_any_contains(ms@, "vision"@),
            None => false,
        },
        None => false,
    };
    ||| arch_hit
    ||| contains_seq(lower_seq(t.id@), "vision"@)
    ||| contains_seq(lower_seq(t.name@), "vision"@)
    ||| contains_seq(lower_seq(t.description@), "vision"@)
    ||| contains_seq(lower_seq(t.description@), "image"@)
}

pub open spec fn tf_function_call(t: TokenfluxModel) -> bool {
    let param_hit = match t.supported_parameters {
        Some(ps) => seq_any_contains(ps@, "tool"@) || seq_any_contains(ps@, "function"@),
        None => false,
    };
    ||| param_hit
    ||| contains_seq(lower_seq(t.id@), "function"@)
    ||| contains_seq(lower_seq(t.name@), "function"@)
    ||| contains_seq(lower_seq(t.description@), "function"@)
    ||| contains_seq(lower_seq(t.description@), "tool"@)
}

pub open spec fn tf_reasoning(t: TokenfluxModel) -> bool {
    let param_hit = match t.supported_parameters {
        Some(ps) => seq_any_contains(ps@, "reasoning"@) || seq_any_contains(
            ps@,
            "include_reasoning"@,
        ),
        None => false,
    };
    ||| param_hit
    ||| contains_seq(lower_seq(t.id@), "reasoning"@)
    ||| contains_seq(lower_seq(t.name@), "reasoning"@)
    ||| contains_seq(lower_seq(t.description@), "reasoning"@)
    ||| contains_seq(lower_seq(t.description@), "thinking"@)
    ||| contains_seq(lower_seq(t.id@), "r1"@)
}

pub open spec fn spec_tf_type(s: Seq<char>) -> ModelType {
    if s == "chat"@ {
        ModelType::Chat
    } else if s == "embedding"@ {
        ModelType::Embedding
    } else if s == "completion"@ {
        ModelType::Completion
    } else {
        ModelType::Chat
    }
}

/// The normalized record for one Tokenflux model; the max-token budget
/// comes from the context-length tier rule.
pub open spec fn tf_model_matches(m: ModelInfo, t: TokenfluxModel) -> bool {
    &&& m.id == t.id
    &&& m.name == t.name
    &&& m.context_length == t.context_length
    &&& m.max_tokens == spec_estimate_max_tokens(t.context_length)
    &&& m.vision == tf_vision(t)
    &&& m.function_call == tf_function_call(t)
    &&& m.reasoning == tf_reasoning(t)
    &&& m.model_type == spec_tf_type(t.model_type@)
    &&& m.description == Some(t.description)
}

/// The Tokenflux adapter; no credential is needed.
pub struct TokenfluxProvider {
    pub api_url: String,
}

impl TokenfluxProvider {
    pub fn new(api_url: String) -> (r: TokenfluxProvider)
        ensures
            r.api_url == api_url,
    {
        TokenfluxProvider { api_url }
    }

    pub fn provider_id(&self) -> (r: &'static str)
        ensures
            r@ == "tokenflux"@,
    {
        "tokenflux"
    }

    pub fn provider_name(&self) -> (r: &'static str)
        ensures
            r@ == "Tokenflux"@,
    {
        "Tokenflux"
    }

    /// Converts one catalog record to its canonical form.
    pub fn convert_model(&self, model: &TokenfluxModel) -> (m: ModelInfo)
        ensures
            tf_model_matches(m, *model),
    {
        let arch_hit = match &model.architecture {
            Some(a) => match &a.input_modalities {
                Some(ms) => vec_any_contains(ms, "image") || vec_any_contains(ms, "vision"),
                None => false,
            },
            None => false,
        };
        let vision = arch_hit || str_contains_in_lower(model.id.as_str(), "vision")
            || str_contains_in_lower(model.name.as_str(), "vision") || str_contains_in_lower(
            model.description.as_str(),
            "vision",
        ) || str_contains_in_lower(model.description.as_str(), "image");

        let fc_param_hit = match &model.supported_parameters {
            Some(ps) => vec_any_contains(ps, "tool") || vec_any_contains(ps, "function"),
            None => false,
        };
        let function_call = fc_param_hit || str_contains_in_lower(model.id.as_str(), "function")
            || str_contains_in_lower(model.name.as_str(), "function") || str_contains_in_lower(
            model.description.as_str(),
            "function",
        ) || str_contains_in_lower(model.description.as_str(), "tool");

        let rs_param_hit = match &model.supported_parameters {
            Some(ps) => vec_any_contains(ps, "reasoning") || vec_any_contains(
                ps,
                "include_reasoning",
            ),
            None => false,
        };
        let reasoning = rs_param_hit || str_contains_in_lower(model.id.as_str(), "reasoning")
            || str_contains_in_lower(model.name.as_str(), "reasoning") || str_contains_in_lower(
            model.description.as_str(),
            "reasoning",
        ) || str_contains_in_lower(model.description.as_str(), "thinking")
            || str_contains_in_lower(model.id.as_str(), "r1");

        let model_type = if str_eq(model.model_type.as_str(), "chat") {
            ModelType::Chat
        } else if str_eq(model.model_type.as_str(), "embedding") {
            ModelType::Embedding
        } else if str_eq(model.model_type.as_str(), "completion") {
            ModelType::Completion
        } else {
            ModelType::Chat
        };

        let max_tokens = estimate_max_tokens(model.context_length);

        ModelInfo::new(
            model.id.clone(),
            model.name.clone(),
            model.context_length,
            max_tokens,
            vision,
            function_call,
            reasoning,
            model_type,
            Some(model.description.clone()),
        )
    }

    /// Normalizes a whole catalog response, in order.
    pub fn models_from_response(&self, resp: &TokenfluxResponse) -> (r: Vec<ModelInfo>)
        ensures
            r@.len() == resp.data@.len(),
            forall|i: int| 0 <= i < r@.len() ==> tf_model_matches(#[trigger] r@[i], resp.data@[i]),
    {
        let mut r: Vec<ModelInfo> = Vec::new();
        let n = resp.data.len();
        for i in 0..n
            invariant
                n == resp.data@.len(),
                r@.len() == i,
                forall|k: int| 0 <= k < i ==> tf_model_matches(#[trigger] r@[k], resp.data@[k]),
        {
            let m = self.convert_model(&resp.data[i]);
            r.push(m);
        }
        r
    }
}

} // verus!
