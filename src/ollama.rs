//! Messages exchanged with the local model server.
use vstd::prelude::*;
use crate::security::{is_local_host, url_host, validate_ollama_url};

verus! {

/// Where the model server listens.
pub struct OllamaConfig {
    base_url: String,
}

/// The address used when none is configured or the configured one is refused.
pub const DEFAULT_OLLAMA_URL: &'static str = "http://localhost:11434";

impl OllamaConfig {
    /// A configuration for an address that has already been checked.
    pub fn new(base_url: String) -> (r: OllamaConfig)
        ensures
            r.url() == base_url@,
    {
        OllamaConfig { base_url }
    }

    /// The address of the model server.
    pub closed spec fn url(&self) -> Seq<char> {
        self.base_url@
    }

    /// The address of the model server.
    pub fn base_url(&self) -> (r: &str)
        ensures
            r@ == self.url(),
    {
        self.base_url.as_str()
    }
}

impl OllamaConfig {
    /// The configuration for a configured address, if any: the address where
    /// it names this machine, else the default one.
    pub fn from_setting(setting: Option<String>) -> (r: OllamaConfig)
        ensures
            setting is None ==> r.url() == DEFAULT_OLLAMA_URL@,
            setting matches Some(u) ==> match url_host(u@) {
                Some(Some(h)) => if is_local_host(h) {
                    r.url() == u@
                } else {
                    r.url() == DEFAULT_OLLAMA_URL@
                },
                _ => r.url() == DEFAULT_OLLAMA_URL@,
            },
    {
        match setting {
            None => OllamaConfig::default(),
            Some(u) => match validate_ollama_url(u.as_str()) {
                Ok(valid) => OllamaConfig { base_url: valid },
                Err(_) => OllamaConfig::default(),
            },
        }
    }
}

impl Default for OllamaConfig {
    /// The default address on this machine.
    fn default() -> (r: OllamaConfig)
        ensures
            r.url() == DEFAULT_OLLAMA_URL@,
    {
        OllamaConfig { base_url: String::from_str(DEFAULT_OLLAMA_URL) }
    }
}

/// One turn of a conversation.
#[derive(Debug, Clone, PartialEq)]
pub struct OllamaMessage {
    pub role: String,
    pub content: String,
}

/// A chat request.
#[derive(Debug, Clone, PartialEq)]
pub struct OllamaRequest {
    pub model: String,
    pub messages: Vec<OllamaMessage>,
    pub stream: bool,
}

/// One chunk of a chat reply; the counts and durations (in nanoseconds) come
/// with the last chunk.
#[derive(Debug, Clone, PartialEq)]
pub struct OllamaResponse {
    pub message: Option<OllamaMessage>,
    pub done: bool,
    pub eval_count: Option<usize>,
    pub total_duration: Option<u64>,
    pub prompt_eval_duration: Option<u64>,
    pub eval_duration: Option<u64>,
}

/// A model that the server has.
#[derive(Debug, Clone, PartialEq)]
pub struct OllamaModel {
    pub name: String,
}

/// The models that the server has.
#[derive(Debug, Clone, PartialEq)]
pub struct OllamaModelsResponse {
    pub models: Vec<OllamaModel>,
}

} // verus!
