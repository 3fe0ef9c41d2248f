//! The GitHub AI adapter: a REST catalog without context information,
//! so dimensions are estimated from the model name and capability flags
//! from keywords over id, name, description and tags.

use vstd::prelude::*;
use crate::models::{ModelInfo, ModelType};
use crate::text::{
    contains_seq, lower_seq, seq_any_contains_lower, str_contains_in_lower, str_eq,
    vec_any_contains_lower,
};

verus! {

/// One model record of the GitHub AI catalog response.
#[derive(Debug)]
pub struct GithubAiModel {
    pub id: String,
    pub name: String,
    pub friendly_name: String,
    pub model_version: i32,
    pub publisher: String,
    pub model_family: String,
    pub model_registry: String,
    pub license: String,
    pub task: String,
    pub description: String,
    pub summary: String,
    pub tags: Vec<String>,
}

pub open spec fn gh_vision(g: GithubAiModel) -> bool {
    ||| contains_seq(lower_seq(g.id@), "vision"@)
    ||| contains_seq(lower_seq(g.name@), "vision"@)
    ||| contains_seq(lower_seq(g.description@), "vision"@)
    ||| contains_seq(lower_seq(g.description@), "image"@)
    ||| seq_any_contains_lower(g.tags@, "image"@)
    ||| seq_any_contains_lower(g.tags@, "vision"@)
}

pub open spec fn gh_function_call(g: GithubAiModel) -> bool {
    ||| contains_seq(lower_seq(g.id@), "function"@)
    ||| contains_seq(lower_seq(g.name@), "function"@)
    ||| contains_seq(lower_seq(g.description@), "function"@)
    ||| contains_seq(lower_seq(g.description@), "tool"@)
    ||| seq_any_contains_lower(g.tags@, "function"@)
    ||| seq_any_contains_lower(g.tags@, "tool"@)
}

pub open spec fn gh_reasoning(g: GithubAiModel) -> bool {
    ||| contains_seq(lower_seq(g.id@), "reasoning"@)
    ||| contains_seq(lower_seq(g.name@), "reasoning"@)
    ||| contains_seq(lower_seq(g.description@), "reasoning"@)
    ||| contains_seq(lower_seq(g.description@), "thinking"@)
    ||| seq_any_contains_lower(g.tags@, "reasoning"@)
    ||| seq_any_contains_lower(g.tags@, "thinking"@)
}

pub open spec fn spec_gh_type(task: Seq<char>) -> ModelType {
    if task == "chat-completion"@ {
        ModelType::Chat
    } else if task == "embeddings"@ {
        ModelType::Embedding
    } else if task == "completion"@ {
        ModelType::Completion
    } else {
        ModelType::Chat
    }
}

/// Context and max-token defaults estimated from the model name.
pub open spec fn spec_gh_dims(name: Seq<char>) -> (u32, u32) {
    let l = lower_seq(name);
    if contains_seq(l, "embed"@) {
        (8192, 0)
    } else if contains_seq(l, "large"@) || contains_seq(l, "405b"@) {
        (200000, 16384)
    } else if contains_seq(l, "70b"@) {
        (128000, 8192)
    } else {
        (32768, 4096)
    }
}

/// The normalized record for one GitHub AI model.
pub open spec fn gh_model_matches(m: ModelInfo, g: GithubAiModel) -> bool {
    &&& m.id == g.id
    &&& m.name == g.friendly_name
    &&& m.context_length == spec_gh_dims(g.name@).0
    &&& m.max_tokens == spec_gh_dims(g.name@).1
    &&& m.vision == gh_vision(g)
    &&& m.function_call == gh_function_call(g)
    &&& m.reasoning == gh_reasoning(g)
    &&& m.model_type == spec_gh_type(g.task@)
    &&& m.description == Some(g.description)
}

/// The GitHub AI adapter; no credential is needed.
pub struct GithubAiProvider {
    pub api_url: String,
}

impl GithubAiProvider {
    pub fn new(api_url: String) -> (r: GithubAiProvider)
        ensures
            r.api_url == api_url,
    {
        GithubAiProvider { api_url }
    }

    pub fn provider_id(&self) -> (r: &'static str)
        ensures
            r@ == "github_ai"@,
    {
        "github_ai"
    }

    pub fn provider_name(&self) -> (r: &'static str)
        ensures
            r@ == "GitHub AI Models"@,
    {
        "GitHub AI Models"
    }

    /// Converts one catalog record to its canonical form.
    pub fn convert_model(&self, model: &GithubAiModel) -> (m: ModelInfo)
        ensures
            gh_model_matches(m, *model),
    {
        let vision = str_contains_in_lower(model.id.as_str(), "vision") || str_contains_in_lower(
            model.name.as_str(),
            "vision",
        ) || str_contains_in_lower(model.description.as_str(), "vision")
            || str_contains_in_lower(model.description.as_str(), "image")
            || vec_any_contains_lower(&model.tags, "image") || vec_any_contains_lower(
            &model.tags,
            "vision",
        );

        let function_call = str_contains_in_lower(model.id.as_str(), "function")
            || str_contains_in_lower(model.name.as_str(), "function") || str_contains_in_lower(
            model.description.as_str(),
            "function",
        ) || str_contains_in_lower(model.description.as_str(), "tool")
            || vec_any_contains_lower(&model.tags, "function") || vec_any_contains_lower(
            &model.tags,
            "tool",
        );

        let reasoning = str_contains_in_lower(model.id.as_str(), "reasoning")
            || str_contains_in_lower(model.name.as_str(), "reasoning") || str_contains_in_lower(
            model.description.as_str(),
            "reasoning",
        ) || str_contains_in_lower(model.description.as_str(), "thinking")
            || vec_any_contains_lower(&model.tags, "reasoning") || vec_any_contains_lower(
            &model.tags,
            "thinking",
        );

        let model_type = if str_eq(model.task.as_str(), "chat-completion") {
            ModelType::Chat
        } else if str_eq(model.task.as_str(), "embeddings") {
            ModelType::Embedding
        } else if str_eq(model.task.as_str(), "completion") {
            ModelType::Completion
        } else {
            ModelType::Chat
        };

        let dims: (u32, u32) = if str_contains_in_lower(model.name.as_str(), "embed") {
            (8192, 0)
        } else if str_contains_in_lower(model.name.as_str(), "large") || str_contains_in_lower(
            model.name.as_str(),
            "405b",
        ) {
            (200000, 16384)
        } else if str_contains_in_lower(model.name.as_str(), "70b") {
            (128000, 8192)
        } else {
            (32768, 4096)
        };

        ModelInfo::new(
            model.id.clone(),
            model.friendly_name.clone(),
            dims.0,
            dims.1,
            vision,
            function_call,
            reasoning,
            model_type,
            Some(model.description.clone()),
        )
    }

    /// Normalizes a whole catalog listing, in order.
    pub fn models_from_list(&self, data: &Vec<GithubAiModel>) -> (r: Vec<ModelInfo>)
        ensures
            r@.len() == data@.len(),
            forall|i: int| 0 <= i < r@.len() ==> gh_model_matches(#[trigger] r@[i], data@[i]),
    {
        let mut r: Vec<ModelInfo> = Vec::new();
        let n = data.len();
        for i in 0..n
            invariant
                n == data@.len(),
                r@.len() == i,
                forall|k: int| 0 <= k < i ==> gh_model_matches(#[trigger] r@[k], data@[k]),
        {
            let m = self.convert_model(&data[i]);
            r.push(m);
        }
        r
    }
}

} // verus!
