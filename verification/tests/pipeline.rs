use public_provider_conf::collections::StrMap;
use public_provider_conf::config::AppConfig;
use public_provider_conf::fetcher::{collect_provider_results, FetchError, FetchOutcome};
use public_provider_conf::heuristics::estimate_max_tokens;
use public_provider_conf::models::{ModelInfo, ModelType, ProviderInfo};
use public_provider_conf::output::DataAggregator;
use public_provider_conf::processor::{DataNormalizer, DataProcessor};
use public_provider_conf::providers::anthropic::AnthropicProvider;
use public_provider_conf::providers::ollama::OllamaProvider;
use public_provider_conf::providers::openai::OpenAIProvider;
use public_provider_conf::template::TemplateModel;
use public_provider_conf::validator::{JsonValidator, ValidationError};

fn template(id: &str, name: &str, patterns: Vec<String>) -> TemplateModel {
    TemplateModel {
        id: id.to_string(),
        name: name.to_string(),
        context_length: 200000,
        max_tokens: 8192,
        vision: true,
        function_call: true,
        reasoning: false,
        model_type: "chat".to_string(),
        description: Some(format!("curated {}", id)),
        match_patterns: patterns,
    }
}

fn model(id: &str) -> ModelInfo {
    ModelInfo::new(
        id.to_string(),
        format!("Model {}", id),
        100000,
        8000,
        false,
        true,
        false,
        ModelType::Chat,
        None,
    )
}

#[test]
fn empty_live_list_emits_every_template() {
    let templates = vec![
        template("alpha-1", "Alpha One", vec![]),
        template("beta-2", "Beta Two", vec!["beta-latest".to_string()]),
    ];
    let live: Vec<String> = Vec::new();

    let openai = OpenAIProvider::new(None);
    let models = openai.reconcile_models(&templates, &live);
    assert_eq!(models.len(), 2);
    assert_eq!(models[0].id, "alpha-1");
    assert_eq!(models[1].id, "beta-2");
    assert_eq!(models[0].name, "Alpha One");
    assert_eq!(models[0].context_length, 200000);

    let anthropic = AnthropicProvider::new(None);
    let models = anthropic.reconcile_models(&templates, &live);
    assert_eq!(models.len(), 2);
    assert_eq!(models[0].id, "alpha-1");
    assert_eq!(models[1].id, "beta-2");

    let ollama = OllamaProvider::new();
    let models = ollama.models_from_templates(&templates);
    assert_eq!(models.len(), 2);
    assert_eq!(models[0].id, "alpha-1");
    assert_eq!(models[1].id, "beta-2");
}

#[test]
fn matched_live_id_takes_curated_metadata() {
    let templates = vec![template("beta-2", "Beta Two", vec!["beta-latest".to_string()])];
    let live = vec!["beta-latest".to_string()];

    let openai = OpenAIProvider::new(None);
    let models = openai.reconcile_models(&templates, &live);
    assert_eq!(models.len(), 1);
    // The canonical id is the live id; everything else is curated.
    assert_eq!(models[0].id, "beta-latest");
    assert_eq!(models[0].name, "Beta Two");
    assert_eq!(models[0].context_length, 200000);
    assert_eq!(models[0].max_tokens, 8192);
    assert!(models[0].vision);
    assert_eq!(models[0].description.as_deref(), Some("curated beta-2"));
}

#[test]
fn unmatched_live_id_policies_differ_per_adapter() {
    let templates = vec![template("beta-2", "Beta Two", vec![])];
    let live = vec!["beta-2".to_string(), "gpt-4o".to_string()];

    // The large-catalog adapter synthesizes a default record.
    let openai = OpenAIProvider::new(None);
    let models = openai.reconcile_models(&templates, &live);
    assert_eq!(models.len(), 2);
    assert_eq!(models[0].id, "beta-2");
    assert_eq!(models[0].name, "Beta Two");
    assert_eq!(models[1].id, "gpt-4o");
    assert_eq!(models[1].name, "Gpt 4o");
    assert_eq!(models[1].context_length, 128000);

    // The strict-catalog adapter silently drops the unmatched id.
    let anthropic = AnthropicProvider::new(None);
    let models = anthropic.reconcile_models(&templates, &live);
    assert_eq!(models.len(), 1);
    assert_eq!(models[0].id, "beta-2");
}

#[test]
fn validator_accepts_well_formed_provider() {
    let p = ProviderInfo::new(
        "prov".to_string(),
        "Provider".to_string(),
        vec![model("m1"), model("m2")],
    );
    assert!(JsonValidator::validate_provider_info(&p).is_ok());
}

#[test]
fn validator_rejects_max_tokens_above_context() {
    let mut bad = model("m1");
    bad.max_tokens = bad.context_length + 1;
    assert_eq!(
        JsonValidator::validate_model_info(&bad),
        Err(ValidationError::MaxTokensExceedContext)
    );
    let p = ProviderInfo::new("prov".to_string(), "Provider".to_string(), vec![bad]);
    assert_eq!(
        JsonValidator::validate_provider_info(&p),
        Err(ValidationError::MaxTokensExceedContext)
    );
    assert_eq!(
        ValidationError::MaxTokensExceedContext.message(),
        "Max tokens cannot exceed context length"
    );
}

#[test]
fn validator_reports_first_violation() {
    let empty_id = ProviderInfo::new("".to_string(), "P".to_string(), vec![model("m")]);
    assert_eq!(
        JsonValidator::validate_provider_info(&empty_id),
        Err(ValidationError::EmptyProviderId)
    );

    let empty_name = ProviderInfo::new("p".to_string(), "".to_string(), vec![model("m")]);
    assert_eq!(
        JsonValidator::validate_provider_info(&empty_name),
        Err(ValidationError::EmptyProviderName)
    );

    let no_models = ProviderInfo::new("p".to_string(), "P".to_string(), Vec::new());
    assert_eq!(
        JsonValidator::validate_provider_info(&no_models),
        Err(ValidationError::NoModels)
    );

    let mut m = model("m");
    m.id = String::new();
    assert_eq!(JsonValidator::validate_model_info(&m), Err(ValidationError::EmptyModelId));

    let mut m = model("m");
    m.name = String::new();
    assert_eq!(JsonValidator::validate_model_info(&m), Err(ValidationError::EmptyModelName));

    let mut m = model("m");
    m.context_length = 0;
    assert_eq!(JsonValidator::validate_model_info(&m), Err(ValidationError::ZeroContextLength));

    let mut m = model("m");
    m.max_tokens = 0;
    assert_eq!(JsonValidator::validate_model_info(&m), Err(ValidationError::ZeroMaxTokens));
}

#[test]
fn tier_estimate_matches_documented_bounds() {
    assert_eq!(estimate_max_tokens(150000), 16384);
    assert_eq!(estimate_max_tokens(60000), 8192);
    assert_eq!(estimate_max_tokens(10000), 4096);
    assert_eq!(estimate_max_tokens(100000), 8192);
    assert_eq!(estimate_max_tokens(100001), 16384);
    assert_eq!(estimate_max_tokens(50000), 4096);
    assert_eq!(estimate_max_tokens(50001), 8192);
}

#[test]
fn orchestrator_isolates_failures_and_aggregation_counts() {
    let ok = FetchOutcome {
        provider_id: "good".to_string(),
        provider_name: "Good Provider".to_string(),
        result: Ok(vec![model("a"), model("b"), model("c")]),
    };
    let failed = FetchOutcome {
        provider_id: "bad".to_string(),
        provider_name: "Bad Provider".to_string(),
        result: Err(FetchError { message: "connection refused".to_string() }),
    };
    let outcomes = vec![ok, failed];
    let results = collect_provider_results(&outcomes);
    assert_eq!(results.len(), 1);
    assert_eq!(results[0].provider, "good");
    assert_eq!(results[0].provider_name, "Good Provider");
    assert_eq!(results[0].models.len(), 3);

    let aggregated = DataAggregator::aggregate_providers(&results);
    assert_eq!(aggregated.total_models, 3);
    assert_eq!(aggregated.version, "1.0.0");
    assert_eq!(aggregated.all_models.len(), 3);
    assert_eq!(aggregated.all_models[0].provider_id, "good");
    assert_eq!(aggregated.all_models[0].id, "a");
    let summary = aggregated.providers.get("good").unwrap();
    assert_eq!(summary.model_count, 3);
    assert_eq!(summary.provider_name, "Good Provider");
}

#[test]
fn all_failed_run_yields_empty_output() {
    let failed = FetchOutcome {
        provider_id: "bad".to_string(),
        provider_name: "Bad Provider".to_string(),
        result: Err(FetchError { message: "timeout".to_string() }),
    };
    let outcomes = vec![failed];
    let results = collect_provider_results(&outcomes);
    assert_eq!(results.len(), 0);
    let aggregated = DataAggregator::aggregate_providers(&results);
    assert_eq!(aggregated.total_models, 0);
    assert_eq!(aggregated.all_models.len(), 0);
    assert_eq!(aggregated.providers.len(), 0);
}

#[test]
fn processor_passes_results_through() {
    let processor = DataProcessor::new();
    let providers = vec![ProviderInfo::new(
        "p".to_string(),
        "P".to_string(),
        vec![model("m")],
    )];
    let out = processor.process_providers(providers).unwrap();
    assert_eq!(out.len(), 1);
    assert_eq!(out[0].provider, "p");
}

#[test]
fn normalizer_trims_names() {
    assert_eq!(DataNormalizer::normalize_model_name("  Model X \t"), "Model X");
    let mut m = model("m");
    m.name = "  Spacious Name  ".to_string();
    let n = DataNormalizer::normalize_model_info(m);
    assert_eq!(n.name, "Spacious Name");
    assert_eq!(n.id, "m");
}

#[test]
fn default_config_lists_known_providers() {
    let config = AppConfig::default();
    assert_eq!(config.providers.len(), 8);
    let ppinfra = config.providers.get("ppinfra").unwrap();
    assert_eq!(ppinfra.api_url, "https://api.ppinfra.com/openai/v1/models");
    assert_eq!(ppinfra.rate_limit, Some(10));
    assert_eq!(ppinfra.timeout, Some(30));
    assert!(ppinfra.api_key_env.is_none());
    let groq = config.providers.get("groq").unwrap();
    assert_eq!(groq.api_key_env.as_deref(), Some("GROQ_API_KEY"));
    let deepseek = config.providers.get("deepseek").unwrap();
    assert_eq!(deepseek.timeout, Some(60));
    assert_eq!(deepseek.api_url, "https://api-docs.deepseek.com/quick_start/pricing");
    assert!(config.providers.get("missing").is_none());
}

#[test]
fn str_map_replaces_and_keeps_first_write() {
    let mut m: StrMap<u32> = StrMap::new();
    m.insert("k".to_string(), 1);
    m.insert("k".to_string(), 2);
    assert_eq!(m.len(), 1);
    assert_eq!(m.get("k"), Some(&2));
    m.insert_if_absent("k".to_string(), 3);
    assert_eq!(m.get("k"), Some(&2));
    m.insert_if_absent("j".to_string(), 4);
    assert_eq!(m.len(), 2);
    assert_eq!(m.get("j"), Some(&4));
}
