//! The OpenRouter adapter: a REST catalog whose records carry nested
//! architecture and per-provider blocks; flags come from the modality
//! and parameter lists.

use vstd::prelude::*;
use crate::models::{ModelInfo, ModelType};
use crate::text::{seq_any_contains, vec_any_contains};

verus! {

/// The architecture block of an OpenRouter record.
#[derive(Debug)]
pub struct OpenRouterArchitecture {
    pub modality: Option<String>,
    pub input_modalities: Option<Vec<String>>,
    pub output_modalities: Option<Vec<String>>,
    pub tokenizer: Option<String>,
    pub instruct_type: Option<String>,
}

/// The top-provider block of an OpenRouter record.
#[derive(Debug)]
pub struct OpenRouterTopProvider {
    pub is_moderated: Option<bool>,
    pub context_length: Option<u32>,
    pub max_completion_tokens: Option<u32>,
}

/// One model record of the OpenRouter catalog response.
#[derive(Debug)]
pub struct OpenRouterModel {
    pub id: String,
    pub canonical_slug: Option<String>,
    pub hugging_face_id: Option<String>,
    pub name: String,
    pub created: Option<i64>,
    pub architecture: Option<OpenRouterArchitecture>,
    pub top_provider: Option<OpenRouterTopProvider>,
    pub context_length: u32,
    pub supported_parameters: Option<Vec<String>>,
}

/// The OpenRouter catalog response.
#[derive(Debug)]
pub struct OpenRouterResponse {
    pub data: Vec<OpenRouterModel>,
}

pub open spec fn or_vision(m: OpenRouterModel) -> bool {
    match m.architecture {
        Some(a) => match a.input_modalities {
            Some(ms) => seq_any_contains(ms@, "image"@),
            None => false,
        },
        None => false,
    }
}

pub open spec fn or_function_call(m: OpenRouterModel) -> bool {
    match m.supported_parameters {
        Some(ps) => seq_any_contains(ps@, "tool"@) || seq_any_contains(ps@, "function"@),
        None => false,
    }
}

pub open spec fn or_reasoning(m: OpenRouterModel) -> bool {
    match m.supported_parameters {
        Some(ps) => seq_any_contains(ps@, "reasoning"@) || seq_any_contains(
            ps@,
            "include_reasoning"@,
        ),
        None => false,
    }
}

/// The max-token budget: the top provider's figure, or 4096.
pub open spec fn or_max_tokens(m: OpenRouterModel) -> u32 {
    match m.top_provider {
        Some(tp) => match tp.max_completion_tokens {
            Some(t) => t,
            None => 4096,
        },
        None => 4096,
    }
}

/// The context length: the top provider's figure, or the model's own.
pub open spec fn or_context_length(m: OpenRouterModel) -> u32 {
    match m.top_provider {
        Some(tp) => match tp.context_length {
            Some(c) => c,
            None => m.context_length,
        },
        None => m.context_length,
    }
}

/// The normalized record for one OpenRouter model.
pub open spec fn or_model_matches(m: ModelInfo, o: OpenRouterModel) -> bool {
    &&& m.id == o.id
    &&& m.name == o.name
    &&& m.context_length == or_context_length(o)
    &&& m.max_tokens == or_max_tokens(o)
    &&& m.vision == or_vision(o)
    &&& m.function_call == or_function_call(o)
    &&& m.reasoning == or_reasoning(o)
    &&& m.model_type == ModelType::Chat
    &&& m.description is None
}

/// The OpenRouter adapter; no credential is needed.
pub struct OpenRouterProvider {
    pub api_url: String,
}

impl OpenRouterProvider {
    pub fn new(api_url: String) -> (r: OpenRouterProvider)
        ensures
            r.api_url == api_url,
    {
        OpenRouterProvider { api_url }
    }

    pub fn provider_id(&self) -> (r: &'static str)
        ensures
            r@ == "openrouter"@,
    {
        "openrouter"
    }

    pub fn provider_name(&self) -> (r: &'static str)
        ensures
            r@ == "OpenRouter"@,
    {
        "OpenRouter"
    }

    /// Converts one catalog record to its canonical form.
    pub fn convert_model(&self, model: &OpenRouterModel) -> (m: ModelInfo)
        ensures
            or_model_matches(m, *model),
    {
        let vision = match &model.architecture {
            Some(a) => match &a.input_modalities {
                Some(ms) => vec_any_contains(ms, "image"),
                None => false,
            },
            None => false,
        };
        let function_call = match &model.supported_parameters {
            Some(ps) => vec_any_contains(ps, "tool") || vec_any_contains(ps, "function"),
            None => false,
        };
        let reasoning = match &model.supported_parameters {
            Some(ps) => vec_any_contains(ps, "reasoning") || vec_any_contains(
                ps,
                "include_reasoning",
            ),
            None => false,
        };
        let max_tokens = match &model.top_provider {
            Some(tp) => match tp.max_completion_tokens {
                Some(t) => t,
                None => 4096,
            },
            None => 4096,
        };
        let context_length = match &model.top_provider {
            Some(tp) => match tp.context_length {
                Some(c) => c,
                None => model.context_length,
            },
            None => model.context_length,
        };
        ModelInfo::new(
            model.id.clone(),
            model.name.clone(),
            context_length,
            max_tokens,
            vision,
            function_call,
            reasoning,
            ModelType::Chat,
            None,
        )
    }

    /// Normalizes a whole catalog response, in order.
    pub fn models_from_response(&self, resp: &OpenRouterResponse) -> (r: Vec<ModelInfo>)
        ensures
            r@.len() == resp.data@.len(),
            forall|i: int| 0 <= i < r@.len() ==> or_model_matches(#[trigger] r@[i], resp.data@[i]),
    {
        let mut r: Vec<ModelInfo> = Vec::new();
        let n = resp.data.len();
        for i in 0..n
            invariant
                n == resp.data@.len(),
                r@.len() == i,
                forall|k: int| 0 <= k < i ==> or_model_matches(#[trigger] r@[k], resp.data@[k]),
        {
            let m = self.convert_model(&resp.data[i]);
            r.push(m);
        }
        r
    }
}

} // verus!
