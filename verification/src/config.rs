//! Configuration of the pipeline: the knobs every component reads, and the
//! validation step that turns placeholder credentials into a structured
//! configuration error before any work starts.

use vstd::prelude::*;
use vstd::string::*;
use crate::text::{spec_contains, str_contains, str_eq};

verus! {

/// The whole configuration of one invocation.
pub struct Config {
    pub google_books: GoogleBooksConfig,
    pub open_library: OpenLibraryConfig,
    pub baserow: BaserowConfig,
    pub llm: LlmConfig,
    pub app: AppConfig,
}

/// Access to the first bibliographic source.
pub struct GoogleBooksConfig {
    pub api_key: String,
    pub base_url: String,
}

/// Access to the second bibliographic source.
pub struct OpenLibraryConfig {
    pub base_url: String,
}

/// Access to the catalog datastore.
pub struct BaserowConfig {
    pub api_token: String,
    pub base_url: String,
    pub database_id: u64,
    pub media_table_id: u64,
    pub categories_table_id: u64,
}

/// Language-model provider selection and the per-provider settings.
pub struct LlmConfig {
    pub provider: String,
    pub openai: OpenAiConfig,
    pub anthropic: AnthropicConfig,
    pub ollama: OllamaConfig,
}

/// Settings of the first hosted language-model provider.
pub struct OpenAiConfig {
    pub api_key: String,
    pub model: String,
    pub base_url: String,
}

/// Settings of the second hosted language-model provider.
pub struct AnthropicConfig {
    pub api_key: String,
    pub model: String,
    pub base_url: String,
}

/// Settings of the local language-model provider.
pub struct OllamaConfig {
    pub base_url: String,
    pub model: String,
}

/// Application-level knobs of the workflow.
pub struct AppConfig {
    pub verbose: bool,
    pub max_search_results: usize,
    pub min_synopsis_words: usize,
    pub target_synopsis_words: usize,
}

/// A credential still holding the placeholder marker text.
pub open spec fn spec_placeholder(key: Seq<char>) -> bool {
    spec_contains(key, "your_"@)
}

/// The outcome of validation: nothing when the configuration is usable,
/// else the message describing what is not.
pub open spec fn spec_validate(c: Config) -> Option<Seq<char>> {
    if c.llm.provider@ == "openai"@ {
        if spec_placeholder(c.llm.openai.api_key@) {
            Some("OpenAI API key not configured"@)
        } else {
            spec_validate_datastore(c)
        }
    } else if c.llm.provider@ == "anthropic"@ {
        if spec_placeholder(c.llm.anthropic.api_key@) {
            Some("Anthropic API key not configured"@)
        } else {
            spec_validate_datastore(c)
        }
    } else if c.llm.provider@ == "ollama"@ {
        spec_validate_datastore(c)
    } else {
        Some("Unsupported LLM provider: "@ + c.llm.provider@)
    }
}

/// The datastore part of validation: the token must not be a placeholder.
pub open spec fn spec_validate_datastore(c: Config) -> Option<Seq<char>> {
    if spec_placeholder(c.baserow.api_token@) {
        Some("Baserow API token not configured"@)
    } else {
        None
    }
}

impl Config {
    /// Checks that the selected language-model provider is known, that its
    /// credential is not a placeholder, and that the datastore token is not
    /// a placeholder; reports the first failure.
    pub fn validate(&self) -> (r: Result<(), String>)
        ensures
            r is Ok <==> spec_validate(*self) is None,
            r matches Err(m) ==> spec_validate(*self) == Some(m@),
    {
        if str_eq(self.llm.provider.as_str(), "openai") {
            if str_contains(self.llm.openai.api_key.as_str(), "your_") {
                return Err(String::from_str("OpenAI API key not configured"));
            }
        } else if str_eq(self.llm.provider.as_str(), "anthropic") {
            if str_contains(self.llm.anthropic.api_key.as_str(), "your_") {
                return Err(String::from_str("Anthropic API key not configured"));
            }
        } else if str_eq(self.llm.provider.as_str(), "ollama") {
        } else {
            let mut m = String::from_str("Unsupported LLM provider: ");
            m.append(self.llm.provider.as_str());
            return Err(m);
        }
        if str_contains(self.baserow.api_token.as_str(), "your_") {
            return Err(String::from_str("Baserow API token not configured"));
        }
        Ok(())
    }
}

} // verus!
