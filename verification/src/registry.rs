//! The tool registry: the fixed mapping from tool names to backends.

use crate::text::same_text;
use vstd::prelude::*;

verus! {

/// A text-completion backend that a tool name can select.
#[derive(Debug, Clone, Copy, PartialEq, Eq, Structural)]
pub enum Backend {
    /// A server with the native "generate" endpoint.
    Ollama,
    /// A server with the plain "completion" endpoint.
    LlamaCpp,
}

impl Backend {
    /// The tool name under which the backend is registered.
    pub open spec fn tool(self) -> Seq<char> {
        match self {
            Backend::Ollama => "code-completion-ollama"@,
            Backend::LlamaCpp => "code-completion-llamacpp"@,
        }
    }

    /// The tool name under which the backend is registered.
    pub fn tool_name(&self) -> (name: &'static str)
        ensures
            name@ == self.tool(),
    {
        match self {
            Backend::Ollama => "code-completion-ollama",
            Backend::LlamaCpp => "code-completion-llamacpp",
        }
    }
}

/// The backend registered under `name`, if there is one.
pub open spec fn registered(name: Seq<char>) -> Option<Backend> {
    if name == Backend::Ollama.tool() {
        Some(Backend::Ollama)
    } else if name == Backend::LlamaCpp.tool() {
        Some(Backend::LlamaCpp)
    } else {
        None
    }
}

/// The backend registered under `name`; `None` for a name that the registry
/// does not hold.
pub fn resolve(name: &str) -> (found: Option<Backend>)
    ensures
        found == registered(name@),
{
    if same_text(name, Backend::Ollama.tool_name()) {
        Some(Backend::Ollama)
    } else if same_text(name, Backend::LlamaCpp.tool_name()) {
        Some(Backend::LlamaCpp)
    } else {
        None
    }
}

/// Every backend is found under its own tool name, and under no other: the
/// registry maps names to backends one to one.
pub proof fn lemma_registry_is_one_to_one(name: Seq<char>, backend: Backend)
    ensures
        registered(name) == Some(backend) <==> name == backend.tool(),
{
    reveal_strlit("code-completion-ollama");
    reveal_strlit("code-completion-llamacpp");
    assert("code-completion-ollama"@.len() != "code-completion-llamacpp"@.len());
}

/// The empty name, which stands for a missing one, is no tool.
pub proof fn lemma_empty_name_is_unknown()
    ensures
        registered(Seq::empty()) is None,
{
    reveal_strlit("code-completion-ollama");
    reveal_strlit("code-completion-llamacpp");
    assert("code-completion-ollama"@.len() > 0);
    assert("code-completion-llamacpp"@.len() > 0);
    assert(Seq::<char>::empty().len() == 0);
}

} // verus!
