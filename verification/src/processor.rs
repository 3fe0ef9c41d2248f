//! Post-fetch processing: a pass-through processing stage and the name
//! normalizer.

use vstd::prelude::*;
use crate::fetcher::FetchError;
use crate::models::{ModelInfo, ProviderInfo};
use crate::text::{trim_spec, trim_str};

verus! {

pub struct DataProcessor;

impl DataProcessor {
    pub fn new() -> (r: DataProcessor) {
        DataProcessor
    }

    /// Passes the fetched results through unchanged.
    pub fn process_providers(&self, providers: Vec<ProviderInfo>) -> (r: Result<
        Vec<ProviderInfo>,
        FetchError,
    >)
        ensures
            r == Ok::<Vec<ProviderInfo>, FetchError>(providers),
    {
        Ok(providers)
    }
}

pub struct DataNormalizer;

impl DataNormalizer {
    /// Trims surrounding whitespace from a display name.
    pub fn normalize_model_name(name: &str) -> (r: String)
        ensures
            r@ == trim_spec(name@),
    {
        trim_str(name)
    }

    /// Normalizes one record: only the display name changes, by
    /// trimming.
    pub fn normalize_model_info(model: ModelInfo) -> (r: ModelInfo)
        ensures
            r.id == model.id,
            r.name@ == trim_spec(model.name@),
            r.context_length == model.context_length,
            r.max_tokens == model.max_tokens,
            r.vision == model.vision,
            r.function_call == model.function_call,
            r.reasoning == model.reasoning,
            r.model_type == model.model_type,
            r.description == model.description,
    {
        let name = Self::normalize_model_name(model.name.as_str());
        ModelInfo {
            name,
            ..model
        }
    }
}

} // verus!
