//! The canonical schema: model records, provider records, and their
//! well-formedness conditions.

use vstd::prelude::*;

verus! {

/// Classification of a model, drawn from a closed set.
#[derive(Clone, Copy, Debug, PartialEq, Eq, Structural)]
pub enum ModelType {
    Chat,
    Completion,
    Embedding,
    ImageGeneration,
    Audio,
}

/// One normalized model record.  Immutable once constructed by an adapter.
#[derive(Debug)]
pub struct ModelInfo {
    pub id: String,
    pub name: String,
    pub context_length: u32,
    pub max_tokens: u32,
    pub vision: bool,
    pub function_call: bool,
    pub reasoning: bool,
    pub model_type: ModelType,
    pub description: Option<String>,
}

impl ModelInfo {
    /// The structural invariant the validator checks: non-empty id and
    /// name, positive token counts, and max tokens bounded by the
    /// context length.
    pub open spec fn well_formed(self) -> bool {
        &&& self.id@.len() > 0
        &&& self.name@.len() > 0
        &&& self.context_length > 0
        &&& self.max_tokens > 0
        &&& self.max_tokens <= self.context_length
    }

    #[allow(clippy::too_many_arguments)]
    pub fn new(
        id: String,
        name: String,
        context_length: u32,
        max_tokens: u32,
        vision: bool,
        function_call: bool,
        reasoning: bool,
        model_type: ModelType,
        description: Option<String>,
    ) -> (r: ModelInfo)
        ensures
            r == (ModelInfo {
                id,
                name,
                context_length,
                max_tokens,
                vision,
                function_call,
                reasoning,
                model_type,
                description,
            }),
    {
        ModelInfo {
            id,
            name,
            context_length,
            max_tokens,
            vision,
            function_call,
            reasoning,
            model_type,
            description,
        }
    }

    /// A field-for-field copy; `ensures` pins the result to the source.
    pub fn duplicate(&self) -> (r: ModelInfo)
        ensures
            r == *self,
    {
        ModelInfo {
            id: self.id.clone(),
            name: self.name.clone(),
            context_length: self.context_length,
            max_tokens: self.max_tokens,
            vision: self.vision,
            function_call: self.function_call,
            reasoning: self.reasoning,
            model_type: self.model_type,
            description: clone_description(&self.description),
        }
    }
}

/// A field-for-field copy of an optional description.
pub fn clone_description(d: &Option<String>) -> (r: Option<String>)
    ensures
        r == *d,
{
    match d {
        Some(s) => Some(s.clone()),
        None => None,
    }
}

/// Relies on `chrono::Utc::now` for the current time; nothing is assumed
/// of the value, which depends on the clock.
#[verifier::external_body]
pub fn now_timestamp() -> i64 {
    chrono::Utc::now().timestamp()
}

/// One provider's catalog as fetched at one moment.  Constructed once per
/// successful adapter fetch; never mutated afterward.
#[derive(Debug)]
pub struct ProviderInfo {
    pub provider: String,
    pub provider_name: String,
    /// Unix timestamp (seconds) of the fetch.
    pub last_updated: i64,
    pub models: Vec<ModelInfo>,
}

impl ProviderInfo {
    /// What the validator checks at the provider level, together with the
    /// per-model conditions.
    pub open spec fn well_formed(self) -> bool {
        &&& self.provider@.len() > 0
        &&& self.provider_name@.len() > 0
        &&& self.models@.len() > 0
        &&& forall|i: int| 0 <= i < self.models@.len() ==> (#[trigger] self.models@[i]).well_formed()
    }

    /// Stamps the record with the current time.
    pub fn new(provider: String, provider_name: String, models: Vec<ModelInfo>) -> (r: ProviderInfo)
        ensures
            r.provider == provider,
            r.provider_name == provider_name,
            r.models == models,
    {
        ProviderInfo { provider, provider_name, last_updated: now_timestamp(), models }
    }
}

} // verus!
