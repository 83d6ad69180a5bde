//! The configuration: what can be set from outside, and what holds where
//! nothing is set.

use vstd::prelude::*;
use vstd::string::StringExecFns;

verus! {

/// What the configuration holds for the backends; `None` where a value is
/// not set.
#[derive(Debug, Clone, PartialEq, Eq)]
pub struct Settings {
    /// The URL of the "generate" endpoint.
    pub ollama_url: Option<String>,
    /// The model that the "generate" endpoint is asked for.
    pub ollama_model: Option<String>,
    /// The URL of the "completion" endpoint.
    pub llamacpp_url: Option<String>,
}

/// The configuration as mathematical value.
pub ghost struct SettingsView {
    pub ollama_url: Option<Seq<char>>,
    pub ollama_model: Option<Seq<char>>,
    pub llamacpp_url: Option<Seq<char>>,
}

/// The characters of an optional text.
pub open spec fn text_value(text: Option<String>) -> Option<Seq<char>> {
    match text {
        Some(s) => Some(s@),
        None => None,
    }
}

impl View for Settings {
    type V = SettingsView;

    open spec fn view(&self) -> SettingsView {
        SettingsView {
            ollama_url: text_value(self.ollama_url),
            ollama_model: text_value(self.ollama_model),
            llamacpp_url: text_value(self.llamacpp_url),
        }
    }
}

/// A configured value, or `default` where none is set.
pub open spec fn configured(value: Option<Seq<char>>, default: Seq<char>) -> Seq<char> {
    match value {
        Some(s) => s,
        None => default,
    }
}

/// Where the "generate" endpoint is looked for when no URL is set.
pub open spec fn default_ollama_url() -> Seq<char> {
    "http://127.0.0.1:11434/api/generate"@
}

/// The model that is asked for when none is set.
pub open spec fn default_ollama_model() -> Seq<char> {
    "qwen2.5-coder:7b"@
}

/// Where the "completion" endpoint is looked for when no URL is set.
pub open spec fn default_llamacpp_url() -> Seq<char> {
    "http://127.0.0.1:8080/completion"@
}

/// The address that the gateway listens on when none is set.
pub open spec fn default_bind_address() -> Seq<char> {
    "127.0.0.1:3000"@
}

impl Settings {
    /// The configuration in which nothing is set.
    pub fn unset() -> (settings: Settings)
        ensures
            settings@ == (SettingsView { ollama_url: None, ollama_model: None, llamacpp_url: None }),
    {
        Settings { ollama_url: None, ollama_model: None, llamacpp_url: None }
    }
}

/// A configured value, or `default` where none is set.
pub fn or_default(value: &Option<String>, default: &str) -> (text: String)
    ensures
        text@ == configured(text_value(*value), default@),
{
    match value {
        Some(s) => s.clone(),
        None => String::from_str(default),
    }
}

/// The address that the gateway listens on.
pub fn bind_address(value: &Option<String>) -> (address: String)
    ensures
        address@ == configured(text_value(*value), default_bind_address()),
{
    or_default(value, "127.0.0.1:3000")
}

} // verus!
