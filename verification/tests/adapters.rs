use public_provider_conf::collections::StrMap;
use public_provider_conf::models::{ModelInfo, ModelType};
use public_provider_conf::providers::deepseek::{DeepSeekModelDetails, DeepSeekProvider};
use public_provider_conf::providers::gemini::GeminiProvider;
use public_provider_conf::providers::github_ai::{GithubAiModel, GithubAiProvider};
use public_provider_conf::providers::groq::{GroqApiResponse, GroqModel, GroqProvider};
use public_provider_conf::providers::openai::OpenAIProvider;
use public_provider_conf::providers::openrouter::{
    OpenRouterModel, OpenRouterProvider, OpenRouterResponse, OpenRouterTopProvider,
};
use public_provider_conf::providers::ppinfra::{PPInfraModel, PPInfraProvider, PPInfraResponse};
use public_provider_conf::providers::tokenflux::{
    TokenfluxModel, TokenfluxProvider, TokenfluxResponse,
};
use public_provider_conf::providers::vercel::{
    VercelModel, VercelPricing, VercelProvider, VercelResponse,
};

#[test]
fn test_deepseek_models_creation() {
    let provider = DeepSeekProvider::new();
    let mut models: StrMap<DeepSeekModelDetails> = StrMap::new();
    provider.add_fallback_models(&mut models);

    assert_eq!(models.len(), 2);
    assert!(models.contains_key("deepseek-chat"));
    assert!(models.contains_key("deepseek-reasoner"));

    let chat_model = models.get("deepseek-chat").unwrap();
    assert_eq!(chat_model.context_length, 128000);
    assert_eq!(chat_model.max_tokens, 8192);
    assert_eq!(chat_model.function_call, true);
    assert_eq!(chat_model.reasoning, false);

    let reasoner_model = models.get("deepseek-reasoner").unwrap();
    assert_eq!(reasoner_model.context_length, 128000);
    assert_eq!(reasoner_model.max_tokens, 65536);
    assert_eq!(reasoner_model.function_call, false);
    assert_eq!(reasoner_model.reasoning, true);
}

#[test]
fn test_model_type_detection() {
    let provider = GroqProvider::new(Some("test-key".to_string()));

    assert_eq!(provider.determine_model_type("whisper-large-v3"), ModelType::Audio);
    assert_eq!(provider.determine_model_type("playai-tts"), ModelType::Audio);
    assert_eq!(provider.determine_model_type("llama-guard-4-12b"), ModelType::Chat);
    assert_eq!(provider.determine_model_type("llama3-8b-8192"), ModelType::Chat);
    assert_eq!(provider.determine_model_type("gpt-oss-120b"), ModelType::Chat);
}

#[test]
fn test_display_name_creation() {
    let provider = GroqProvider::new(Some("test-key".to_string()));

    assert_eq!(
        provider.create_display_name("meta-llama/llama-3.1-8b-instant", "Meta"),
        "Meta: LLaMA 3.1 8B Instant"
    );
    assert_eq!(
        provider.create_display_name("openai/gpt-oss-120b", "OpenAI"),
        "OpenAI: GPT OSS 120B"
    );
    assert_eq!(provider.create_display_name("gemma2-9b-it", "Google"), "Google: Gemma2 9B IT");
}

#[test]
fn groq_inactive_models_are_skipped() {
    let provider = GroqProvider::new(Some("test-key".to_string()));
    let resp = GroqApiResponse {
        object: "list".to_string(),
        data: vec![
            GroqModel {
                id: "llama3-8b-8192".to_string(),
                object: "model".to_string(),
                created: 0,
                owned_by: "Meta".to_string(),
                active: true,
                context_window: 8192,
                max_completion_tokens: Some(4096),
            },
            GroqModel {
                id: "retired-model".to_string(),
                object: "model".to_string(),
                created: 0,
                owned_by: "Meta".to_string(),
                active: false,
                context_window: 4096,
                max_completion_tokens: None,
            },
        ],
    };
    let models = provider.models_from_response(&resp);
    assert_eq!(models.len(), 1);
    assert_eq!(models[0].id, "llama3-8b-8192");
    assert_eq!(models[0].context_length, 8192);
    assert_eq!(models[0].max_tokens, 4096);
    assert!(models[0].function_call);
}

#[test]
fn deepseek_scrape_parses_documentation_table() {
    let provider = DeepSeekProvider::new();
    let html = "<html><body><table>\
        <tr><th>MODEL</th><th>DETAILS</th></tr>\
        <tr><td>deepseek-chat</td><td>64K context window</td></tr>\
        <tr><td>deepseek-reasoner</td><td>thinking mode</td></tr>\
        </table></body></html>";
    let models = provider.models_from_page(html);
    assert_eq!(models.len(), 2);
    assert_eq!(models[0].id, "deepseek-chat");
    assert_eq!(models[0].name, "DeepSeek: DeepSeek Chat");
    assert_eq!(models[0].context_length, 128000);
    assert_eq!(models[0].max_tokens, 8192);
    assert_eq!(
        models[0].description.as_deref(),
        Some(
            "DeepSeek-V3.1 (Non-thinking Mode) - High-performance conversational AI model with 128K context window. 64K context window"
        )
    );
    assert_eq!(models[1].id, "deepseek-reasoner");
    assert_eq!(models[1].max_tokens, 65536);
    assert_eq!(
        models[1].description.as_deref(),
        Some(
            "DeepSeek-V3.1 (Thinking Mode) - Advanced reasoning model with extended output capabilities. thinking mode"
        )
    );
}

#[test]
fn deepseek_scrape_falls_back_on_empty_page() {
    let provider = DeepSeekProvider::new();
    let models = provider.models_from_page("<html><body><p>nothing here</p></body></html>");
    assert_eq!(models.len(), 2);
    let chat = models.iter().find(|m| m.id == "deepseek-chat").unwrap();
    let reasoner = models.iter().find(|m| m.id == "deepseek-reasoner").unwrap();
    assert_eq!(chat.context_length, 128000);
    assert_eq!(reasoner.context_length, 128000);
    assert_eq!(chat.max_tokens, 8192);
    assert_eq!(reasoner.max_tokens, 65536);
    assert!(chat.function_call);
    assert!(!reasoner.function_call);
    assert!(!chat.reasoning);
    assert!(reasoner.reasoning);
    assert_eq!(chat.model_type, ModelType::Chat);
}

#[test]
fn gemini_scrape_reads_code_list_items() {
    let provider = GeminiProvider::new(None);
    let html = "<html><body><ul>\
        <li><code>gemini-2.0-flash</code> Fast multimodal model</li>\
        </ul></body></html>";
    let api_models: Vec<String> = Vec::new();
    let models = provider.models_from(&api_models, html);
    assert_eq!(models.len(), 1);
    assert_eq!(models[0].id, "models/gemini-2.0-flash");
    assert_eq!(models[0].name, "Google: Gemini 2.0 Flash");
    assert_eq!(models[0].model_type, ModelType::Chat);
    assert!(models[0].vision);
}

#[test]
fn gemini_scrape_falls_back_on_empty_page() {
    let provider = GeminiProvider::new(None);
    let api_models: Vec<String> = Vec::new();
    let models = provider.models_from(&api_models, "<html><body></body></html>");
    assert_eq!(models.len(), 4);
    assert_eq!(models[0].id, "models/gemini-1.5-pro-latest");
    assert_eq!(models[0].name, "Gemini 1.5 Pro");
    assert_eq!(models[0].context_length, 2097152);
    let gecko = models.iter().find(|m| m.id == "models/embedding-gecko-001").unwrap();
    assert_eq!(gecko.model_type, ModelType::Embedding);
    assert_eq!(gecko.max_tokens, 0);
}

#[test]
fn gemini_display_name_renders_parts() {
    let provider = GeminiProvider::new(None);
    assert_eq!(provider.create_display_name("gemini-1.5-pro"), "Gemini 1.5 Pro");
    assert_eq!(provider.create_display_name("gemini-2.0-flash"), "Gemini 2.0 Flash");
}

#[test]
fn openai_default_model_uses_family_heuristics() {
    let provider = OpenAIProvider::new(None);
    let m = provider.create_default_model("gpt-4o-mini");
    assert_eq!(m.id, "gpt-4o-mini");
    assert_eq!(m.name, "Gpt 4o Mini");
    assert_eq!(m.context_length, 128000);
    assert_eq!(m.max_tokens, 8192);
    assert!(m.vision);
    assert!(m.function_call);
    assert!(!m.reasoning);
    assert_eq!(m.model_type, ModelType::Chat);
    assert_eq!(m.description.as_deref(), Some("OpenAI model gpt-4o-mini (auto-configured)"));

    let e = provider.create_default_model("text-embedding-3-small");
    assert_eq!(e.model_type, ModelType::Embedding);
    assert_eq!(e.context_length, 8191);
    assert!(!e.function_call);

    let o = provider.create_default_model("o1-preview");
    assert!(o.reasoning);
    assert_eq!(o.context_length, 128000);
    assert_eq!(o.max_tokens, 32768);
}

#[test]
fn ppinfra_features_drive_flags() {
    let provider = PPInfraProvider::new("https://example.invalid/models".to_string());
    let resp = PPInfraResponse {
        data: vec![PPInfraModel {
            id: "m1".to_string(),
            display_name: "Model One".to_string(),
            context_size: 32768,
            max_output_tokens: 4096,
            features: vec!["vision".to_string(), "function-calling".to_string()],
            model_type: "chat".to_string(),
        }],
    };
    let models = provider.models_from_response(&resp);
    assert_eq!(models.len(), 1);
    assert!(models[0].vision);
    assert!(models[0].function_call);
    assert!(!models[0].reasoning);
    assert_eq!(models[0].model_type, ModelType::Chat);
}

#[test]
fn tokenflux_estimates_max_tokens_by_tier() {
    let provider = TokenfluxProvider::new("https://example.invalid/models".to_string());
    let mk = |id: &str, context_length: u32| TokenfluxModel {
        id: id.to_string(),
        name: id.to_string(),
        model_type: "chat".to_string(),
        description: "a plain model".to_string(),
        context_length,
        architecture: None,
        supported_parameters: None,
    };
    let resp = TokenfluxResponse {
        data: vec![mk("big", 150000), mk("mid", 60000), mk("small", 10000)],
    };
    let models = provider.models_from_response(&resp);
    assert_eq!(models[0].max_tokens, 16384);
    assert_eq!(models[1].max_tokens, 8192);
    assert_eq!(models[2].max_tokens, 4096);
}

#[test]
fn vercel_keeps_native_dimensions() {
    let provider = VercelProvider::new("https://example.invalid/models".to_string());
    let resp = VercelResponse {
        object: "list".to_string(),
        data: vec![VercelModel {
            id: "some/reasoning-model".to_string(),
            object: "model".to_string(),
            created: 0,
            owned_by: "someone".to_string(),
            name: "A Reasoning Model".to_string(),
            description: "thinks with tools".to_string(),
            context_window: 200000,
            max_tokens: 32000,
            model_type: "language".to_string(),
            pricing: VercelPricing {
                input: "1".to_string(),
                output: "2".to_string(),
                input_cache_read: None,
                input_cache_write: None,
            },
            tags: Vec::new(),
        }],
    };
    let models = provider.models_from_response(&resp);
    assert_eq!(models[0].context_length, 200000);
    assert_eq!(models[0].max_tokens, 32000);
    assert!(models[0].reasoning);
    assert!(models[0].function_call);
    assert_eq!(models[0].model_type, ModelType::Chat);
}

#[test]
fn openrouter_prefers_top_provider_figures() {
    let provider = OpenRouterProvider::new("https://example.invalid/models".to_string());
    let resp = OpenRouterResponse {
        data: vec![
            OpenRouterModel {
                id: "a/model".to_string(),
                canonical_slug: None,
                hugging_face_id: None,
                name: "A Model".to_string(),
                created: None,
                architecture: None,
                top_provider: Some(OpenRouterTopProvider {
                    is_moderated: None,
                    context_length: Some(131072),
                    max_completion_tokens: Some(16000),
                }),
                context_length: 32768,
                supported_parameters: Some(vec!["tools".to_string()]),
            },
            OpenRouterModel {
                id: "b/model".to_string(),
                canonical_slug: None,
                hugging_face_id: None,
                name: "B Model".to_string(),
                created: None,
                architecture: None,
                top_provider: None,
                context_length: 32768,
                supported_parameters: None,
            },
        ],
    };
    let models = provider.models_from_response(&resp);
    assert_eq!(models[0].context_length, 131072);
    assert_eq!(models[0].max_tokens, 16000);
    assert!(models[0].function_call);
    assert_eq!(models[1].context_length, 32768);
    assert_eq!(models[1].max_tokens, 4096);
    assert!(!models[1].function_call);
}

#[test]
fn github_ai_estimates_dimensions_from_name() {
    let provider = GithubAiProvider::new("https://example.invalid/models".to_string());
    let mk = |name: &str, task: &str| GithubAiModel {
        id: format!("{}-id", name),
        name: name.to_string(),
        friendly_name: format!("Friendly {}", name),
        model_version: 1,
        publisher: "pub".to_string(),
        model_family: "fam".to_string(),
        model_registry: "reg".to_string(),
        license: "mit".to_string(),
        task: task.to_string(),
        description: "a reasoning model with tool use".to_string(),
        summary: "s".to_string(),
        tags: vec!["Vision".to_string()],
    };
    let data = vec![
        mk("Llama-405B", "chat-completion"),
        mk("Llama-70b", "chat-completion"),
        mk("small-model", "embeddings"),
    ];
    let models = provider.models_from_list(&data);
    assert_eq!(models[0].context_length, 200000);
    assert_eq!(models[0].max_tokens, 16384);
    assert!(models[0].vision);
    assert!(models[0].function_call);
    assert!(models[0].reasoning);
    assert_eq!(models[1].context_length, 128000);
    assert_eq!(models[1].max_tokens, 8192);
    assert_eq!(models[2].model_type, ModelType::Embedding);
    assert_eq!(models[2].context_length, 32768);
    assert_eq!(models[0].name, "Friendly Llama-405B");
}

#[test]
fn model_info_new_keeps_fields() {
    let m = ModelInfo::new(
        "id-1".to_string(),
        "Name".to_string(),
        1000,
        100,
        true,
        false,
        true,
        ModelType::Completion,
        Some("desc".to_string()),
    );
    assert_eq!(m.id, "id-1");
    assert_eq!(m.name, "Name");
    assert_eq!(m.context_length, 1000);
    assert_eq!(m.max_tokens, 100);
    assert!(m.vision);
    assert!(!m.function_call);
    assert!(m.reasoning);
    assert_eq!(m.model_type, ModelType::Completion);
    assert_eq!(m.description.as_deref(), Some("desc"));
}
