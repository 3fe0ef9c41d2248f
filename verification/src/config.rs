//! Per-provider configuration: endpoint, optional credential source,
//! rate limit and timeout, with the built-in default set.  Loading a
//! configuration file and reading the environment happen outside.

use vstd::prelude::*;
use crate::collections::{assoc_get, StrMap};
use vstd::string::StringExecFns;

verus! {

/// One provider's connection settings.
#[derive(Debug)]
pub struct ProviderConfig {
    pub api_url: String,
    pub api_key_env: Option<String>,
    pub api_key: Option<String>,
    pub rate_limit: Option<u32>,
    pub timeout: Option<u64>,
}

/// A configuration entry with the given endpoint, credential
/// environment variable, rate limit and timeout, and no direct
/// credential.
pub open spec fn config_entry_is(
    c: ProviderConfig,
    api_url: Seq<char>,
    api_key_env: Option<Seq<char>>,
    rate_limit: u32,
    timeout: u64,
) -> bool {
    &&& c.api_url@ == api_url
    &&& (match (c.api_key_env, api_key_env) {
        (Some(e), Some(v)) => e@ == v,
        (None, None) => true,
        _ => false,
    })
    &&& c.api_key is None
    &&& c.rate_limit == Some(rate_limit)
    &&& c.timeout == Some(timeout)
}

/// The application configuration: one entry per provider.
#[derive(Debug)]
pub struct AppConfig {
    pub providers: StrMap<ProviderConfig>,
}

impl AppConfig {
    /// The built-in configuration: every known provider under its
    /// stable slug, with its public endpoint and conservative limits.
    pub fn default() -> (r: AppConfig)
        ensures
            r.providers.wf(),
            r.providers@.len() == 8,
            assoc_get(r.providers@, "ppinfra"@) matches Some(c) && config_entry_is(
                c,
                "https://api.ppinfra.com/openai/v1/models"@,
                None,
                10,
                30,
            ),
            assoc_get(r.providers@, "openrouter"@) matches Some(c) && config_entry_is(
                c,
                "https://openrouter.ai/api/v1/models"@,
                None,
                5,
                30,
            ),
            assoc_get(r.providers@, "gemini"@) matches Some(c) && config_entry_is(
                c,
                "https://generativelanguage.googleapis.com/v1beta/openai/models"@,
                Some("GEMINI_API_KEY"@),
                10,
                60,
            ),
            assoc_get(r.providers@, "vercel"@) matches Some(c) && config_entry_is(
                c,
                "https://ai-gateway.vercel.sh/v1/models"@,
                None,
                10,
                30,
            ),
            assoc_get(r.providers@, "github_ai"@) matches Some(c) && config_entry_is(
                c,
                "https://models.inference.ai.azure.com/models"@,
                None,
                5,
                30,
            ),
            assoc_get(r.providers@, "tokenflux"@) matches Some(c) && config_entry_is(
                c,
                "https://tokenflux.ai/v1/models"@,
                None,
                10,
                30,
            ),
            assoc_get(r.providers@, "groq"@) matches Some(c) && config_entry_is(
                c,
                "https://api.groq.com/openai/v1/models"@,
                Some("GROQ_API_KEY"@),
                10,
                30,
            ),
            assoc_get(r.providers@, "deepseek"@) matches Some(c) && config_entry_is(
                c,
                "https://api-docs.deepseek.com/quick_start/pricing"@,
                None,
                5,
                60,
            ),
    {
        proof {
            reveal_strlit("ppinfra");
            reveal_strlit("openrouter");
            reveal_strlit("gemini");
            reveal_strlit("vercel");
            reveal_strlit("github_ai");
            reveal_strlit("tokenflux");
            reveal_strlit("groq");
            reveal_strlit("deepseek");
            assert("ppinfra"@.len() == 7 && "ppinfra"@[0] == 'p');
            assert("openrouter"@.len() == 10 && "openrouter"@[0] == 'o');
            assert("gemini"@.len() == 6 && "gemini"@[0] == 'g');
            assert("vercel"@.len() == 6 && "vercel"@[0] == 'v');
            assert("github_ai"@.len() == 9 && "github_ai"@[0] == 'g');
            assert("tokenflux"@.len() == 9 && "tokenflux"@[0] == 't');
            assert("groq"@.len() == 4 && "groq"@[0] == 'g');
            assert("deepseek"@.len() == 8 && "deepseek"@[0] == 'd');
        }
        let mut providers: StrMap<ProviderConfig> = StrMap::new();
        proof {
            assert(providers@.len() == 0);
        }
        providers.insert(
            String::from_str("ppinfra"),
            ProviderConfig {
                api_url: String::from_str("https://api.ppinfra.com/openai/v1/models"),
                api_key_env: None,
                api_key: None,
                rate_limit: Some(10),
                timeout: Some(30),
            },
        );
        proof {
            assert(assoc_get(Seq::<(Seq<char>, ProviderConfig)>::empty(), "openrouter"@) is None);
            assert(assoc_get(providers@, "openrouter"@) is None);
        }
        providers.insert(
            String::from_str("openrouter"),
            ProviderConfig {
                api_url: String::from_str("https://openrouter.ai/api/v1/models"),
                api_key_env: None,
                api_key: None,
                rate_limit: Some(5),
                timeout: Some(30),
            },
        );
        proof {
            assert(assoc_get(Seq::<(Seq<char>, ProviderConfig)>::empty(), "gemini"@) is None);
            assert(assoc_get(providers@, "gemini"@) is None);
        }
        providers.insert(
            String::from_str("gemini"),
            ProviderConfig {
                api_url: String::from_str(
                    "https://generativelanguage.googleapis.com/v1beta/openai/models",
                ),
                api_key_env: Some(String::from_str("GEMINI_API_KEY")),
                api_key: None,
                rate_limit: Some(10),
                timeout: Some(60),
            },
        );
        proof {
            assert(assoc_get(Seq::<(Seq<char>, ProviderConfig)>::empty(), "vercel"@) is None);
            assert(assoc_get(providers@, "vercel"@) is None);
        }
        providers.insert(
            String::from_str("vercel"),
            ProviderConfig {
                api_url: String::from_str("https://ai-gateway.vercel.sh/v1/models"),
                api_key_env: None,
                api_key: None,
                rate_limit: Some(10),
                timeout: Some(30),
            },
        );
        proof {
            assert(assoc_get(Seq::<(Seq<char>, ProviderConfig)>::empty(), "github_ai"@) is None);
            assert(assoc_get(providers@, "github_ai"@) is None);
        }
        providers.insert(
            String::from_str("github_ai"),
            ProviderConfig {
                api_url: String::from_str("https://models.inference.ai.azure.com/models"),
                api_key_env: None,
                api_key: None,
                rate_limit: Some(5),
                timeout: Some(30),
            },
        );
        proof {
            assert(assoc_get(Seq::<(Seq<char>, ProviderConfig)>::empty(), "tokenflux"@) is None);
            assert(assoc_get(providers@, "tokenflux"@) is None);
        }
        providers.insert(
            String::from_str("tokenflux"),
            ProviderConfig {
                api_url: String::from_str("https://tokenflux.ai/v1/models"),
                api_key_env: None,
                api_key: None,
                rate_limit: Some(10),
                timeout: Some(30),
            },
        );
        proof {
            assert(assoc_get(Seq::<(Seq<char>, ProviderConfig)>::empty(), "groq"@) is None);
            assert(assoc_get(providers@, "groq"@) is None);
        }
        providers.insert(
            String::from_str("groq"),
            ProviderConfig {
                api_url: String::from_str("https://api.groq.com/openai/v1/models"),
                api_key_env: Some(String::from_str("GROQ_API_KEY")),
                api_key: None,
                rate_limit: Some(10),
                timeout: Some(30),
            },
        );
        proof {
            assert(assoc_get(Seq::<(Seq<char>, ProviderConfig)>::empty(), "deepseek"@) is None);
            assert(assoc_get(providers@, "deepseek"@) is None);
        }
        providers.insert(
            String::from_str("deepseek"),
            ProviderConfig {
                api_url: String::from_str("https://api-docs.deepseek.com/quick_start/pricing"),
                api_key_env: None,
                api_key: None,
                rate_limit: Some(5),
                timeout: Some(60),
            },
        );
        AppConfig { providers }
    }
}

} // verus!
