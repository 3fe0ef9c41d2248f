//! Shared capability-inference rules: the max-token tier estimate used by
//! every adapter whose provider reports no native max-tokens field, and the
//! mapping from a template's model-type string to the canonical enum.

use vstd::prelude::*;
use crate::models::ModelType;
use crate::text::str_eq;

verus! {

/// Tiered max-token estimate from the context length: more than 100,000
/// tokens of context allow 16,384 output tokens, more than 50,000 allow
/// 8,192, anything else 4,096.
pub open spec fn spec_estimate_max_tokens(context_length: u32) -> u32 {
    if context_length > 100000 {
        16384
    } else if context_length > 50000 {
        8192
    } else {
        4096
    }
}

pub fn estimate_max_tokens(context_length: u32) -> (r: u32)
    ensures
        r == spec_estimate_max_tokens(context_length),
{
    if context_length > 100000 {
        16384
    } else if context_length > 50000 {
        8192
    } else {
        4096
    }
}

/// The canonical model type named by a template's type string; any
/// unrecognized value defaults to `Chat`.
pub open spec fn spec_template_model_type(s: Seq<char>) -> ModelType {
    if s == "chat"@ {
        ModelType::Chat
    } else if s == "completion"@ {
        ModelType::Completion
    } else if s == "embedding"@ {
        ModelType::Embedding
    } else if s == "imageGeneration"@ {
        ModelType::ImageGeneration
    } else if s == "audio"@ {
        ModelType::Audio
    } else {
        ModelType::Chat
    }
}

pub fn template_model_type(s: &str) -> (r: ModelType)
    ensures
        r == spec_template_model_type(s@),
{
    if str_eq(s, "chat") {
        ModelType::Chat
    } else if str_eq(s, "completion") {
        ModelType::Completion
    } else if str_eq(s, "embedding") {
        ModelType::Embedding
    } else if str_eq(s, "imageGeneration") {
        ModelType::ImageGeneration
    } else if str_eq(s, "audio") {
        ModelType::Audio
    } else {
        ModelType::Chat
    }
}

} // verus!
