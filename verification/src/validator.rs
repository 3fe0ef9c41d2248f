//! Structural validation of the canonical schema.  The checks fail fast:
//! the error identifies the first violation found, provider-level checks
//! before model-level ones.

use vstd::prelude::*;
use crate::models::{ModelInfo, ProviderInfo};

verus! {

/// The first structural violation a record can exhibit.
#[derive(Clone, Copy, Debug, PartialEq, Eq, Structural)]
pub enum ValidationError {
    EmptyProviderId,
    EmptyProviderName,
    NoModels,
    EmptyModelId,
    EmptyModelName,
    ZeroContextLength,
    ZeroMaxTokens,
    MaxTokensExceedContext,
}

impl ValidationError {
    /// A human-readable description of the violation.
    pub fn message(&self) -> (r: &'static str)
        ensures
            r@ == self.spec_message(),
    {
        match self {
            ValidationError::EmptyProviderId => "Provider ID cannot be empty",
            ValidationError::EmptyProviderName => "Provider name cannot be empty",
            ValidationError::NoModels => "Provider must have at least one model",
            ValidationError::EmptyModelId => "Model ID cannot be empty",
            ValidationError::EmptyModelName => "Model name cannot be empty",
            ValidationError::ZeroContextLength => "Context length must be greater than 0",
            ValidationError::ZeroMaxTokens => "Max tokens must be greater than 0",
            ValidationError::MaxTokensExceedContext => "Max tokens cannot exceed context length",
        }
    }

    pub open spec fn spec_message(self) -> Seq<char> {
        match self {
            ValidationError::EmptyProviderId => "Provider ID cannot be empty"@,
            ValidationError::EmptyProviderName => "Provider name cannot be empty"@,
            ValidationError::NoModels => "Provider must have at least one model"@,
            ValidationError::EmptyModelId => "Model ID cannot be empty"@,
            ValidationError::EmptyModelName => "Model name cannot be empty"@,
            ValidationError::ZeroContextLength => "Context length must be greater than 0"@,
            ValidationError::ZeroMaxTokens => "Max tokens must be greater than 0"@,
            ValidationError::MaxTokensExceedContext => "Max tokens cannot exceed context length"@,
        }
    }
}

/// The outcome of validating one model: the first violated condition, in
/// check order, or success.
pub open spec fn spec_validate_model(m: ModelInfo) -> Result<(), ValidationError> {
    if m.id@.len() == 0 {
        Err(ValidationError::EmptyModelId)
    } else if m.name@.len() == 0 {
        Err(ValidationError::EmptyModelName)
    } else if m.context_length == 0 {
        Err(ValidationError::ZeroContextLength)
    } else if m.max_tokens == 0 {
        Err(ValidationError::ZeroMaxTokens)
    } else if m.max_tokens > m.context_length {
        Err(ValidationError::MaxTokensExceedContext)
    } else {
        Ok(())
    }
}

/// The outcome of validating a list of models front to back, stopping at
/// the first violation.
pub open spec fn spec_validate_models(models: Seq<ModelInfo>) -> Result<(), ValidationError>
    decreases models.len(),
{
    if models.len() == 0 {
        Ok(())
    } else {
        match spec_validate_model(models[0]) {
            Err(e) => Err(e),
            Ok(()) => spec_validate_models(models.drop_first()),
        }
    }
}

/// The outcome of validating a provider record: provider-level checks
/// first, then the models in order.
pub open spec fn spec_validate_provider(p: ProviderInfo) -> Result<(), ValidationError> {
    if p.provider@.len() == 0 {
        Err(ValidationError::EmptyProviderId)
    } else if p.provider_name@.len() == 0 {
        Err(ValidationError::EmptyProviderName)
    } else if p.models@.len() == 0 {
        Err(ValidationError::NoModels)
    } else {
        spec_validate_models(p.models@)
    }
}

/// Validating a model list succeeds exactly when every model is
/// well-formed.
pub proof fn lemma_validate_models_ok(models: Seq<ModelInfo>)
    ensures
        spec_validate_models(models) is Ok <==> forall|i: int|
            0 <= i < models.len() ==> (#[trigger] models[i]).well_formed(),
    decreases models.len(),
{
    if models.len() > 0 {
        lemma_validate_models_ok(models.drop_first());
        if spec_validate_models(models) is Ok {
            assert forall|i: int| 0 <= i < models.len() implies (#[trigger] models[i]).well_formed()
            by {
                if i > 0 {
                    assert(models.drop_first()[i - 1] == models[i]);
                }
            }
        }
        if forall|i: int| 0 <= i < models.len() ==> (#[trigger] models[i]).well_formed() {
            assert forall|i: int|
                0 <= i < models.drop_first().len() implies (#[trigger] models.drop_first()[i]).well_formed()
            by {
                assert(models.drop_first()[i] == models[i + 1]);
            }
        }
    }
}

pub struct JsonValidator;

impl JsonValidator {
    /// Checks one model record, reporting the first violated condition.
    pub fn validate_model_info(model: &ModelInfo) -> (r: Result<(), ValidationError>)
        ensures
            r == spec_validate_model(*model),
            r is Ok <==> model.well_formed(),
    {
        if model.id.as_str().is_empty() {
            Err(ValidationError::EmptyModelId)
        } else if model.name.as_str().is_empty() {
            Err(ValidationError::EmptyModelName)
        } else if model.context_length == 0 {
            Err(ValidationError::ZeroContextLength)
        } else if model.max_tokens == 0 {
            Err(ValidationError::ZeroMaxTokens)
        } else if model.max_tokens > model.context_length {
            Err(ValidationError::MaxTokensExceedContext)
        } else {
            Ok(())
        }
    }

    /// Checks a provider record and each of its models, in order,
    /// reporting the first violated condition.
    pub fn validate_provider_info(provider: &ProviderInfo) -> (r: Result<(), ValidationError>)
        ensures
            r == spec_validate_provider(*provider),
            r is Ok <==> provider.well_formed(),
    {
        proof {
            lemma_validate_models_ok(provider.models@);
        }
        if provider.provider.as_str().is_empty() {
            return Err(ValidationError::EmptyProviderId);
        }
        if provider.provider_name.as_str().is_empty() {
            return Err(ValidationError::EmptyProviderName);
        }
        if provider.models.len() == 0 {
            return Err(ValidationError::NoModels);
        }
        let n = provider.models.len();
        proof {
            assert(provider.models@.skip(0) =~= provider.models@);
        }
        for i in 0..n
            invariant
                n == provider.models@.len(),
                n > 0,
                provider.provider@.len() > 0,
                provider.provider_name@.len() > 0,
                spec_validate_models(provider.models@.skip(i as int)) == spec_validate_models(
                    provider.models@,
                ),
                forall|k: int| 0 <= k < i ==> spec_validate_model(
                    #[trigger] provider.models@[k],
                ) is Ok,
        {
            let r = Self::validate_model_info(&provider.models[i]);
            proof {
                assert(provider.models@.skip(i as int)[0] == provider.models@[i as int]);
                assert(provider.models@.skip(i as int).drop_first() =~= provider.models@.skip(
                    i + 1 as int,
                ));
            }
            if let Err(e) = r {
                proof {
                    assert(provider.models@.skip(i as int).len() > 0);
                    assert(spec_validate_models(provider.models@.skip(i as int)) == Err::<
                        (),
                        ValidationError,
                    >(e));
                }
                return Err(e);
            }
        }
        proof {
            assert(provider.models@.skip(n as int) =~= Seq::<ModelInfo>::empty());
        }
        Ok(())
    }
}

/// The bound the validator enforces: a provider record it accepts has
/// `max_tokens <= context_length` for every model, and a record with any
/// model violating the bound is rejected.
pub proof fn lemma_validator_enforces_token_bound(p: ProviderInfo)
    ensures
        spec_validate_provider(p) is Ok ==> forall|i: int|
            0 <= i < p.models@.len() ==> (#[trigger] p.models@[i]).max_tokens
                <= p.models@[i].context_length,
        (exists|i: int|
            0 <= i < p.models@.len() && (#[trigger] p.models@[i]).max_tokens
                > p.models@[i].context_length) ==> spec_validate_provider(p) is Err,
{
    lemma_validate_models_ok(p.models@);
    if spec_validate_provider(p) is Ok {
        assert(forall|i: int| 0 <= i < p.models@.len() ==> (#[trigger] p.models@[i]).well_formed());
    }
    if exists|i: int|
        0 <= i < p.models@.len() && (#[trigger] p.models@[i]).max_tokens
            > p.models@[i].context_length {
        let i = choose|i: int|
            0 <= i < p.models@.len() && (#[trigger] p.models@[i]).max_tokens
                > p.models@[i].context_length;
        assert(!p.models@[i].well_formed());
    }
}

} // verus!
