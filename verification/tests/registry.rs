use completion_gateway::registry::{resolve, Backend};

#[test]
fn both_tools_are_registered() {
    assert_eq!(resolve("code-completion-ollama"), Some(Backend::Ollama));
    assert_eq!(resolve("code-completion-llamacpp"), Some(Backend::LlamaCpp));
}

#[test]
fn other_names_are_not_registered() {
    for name in ["", "ollama", "code-completion", "code-completion-ollama ", "Code-Completion-Ollama", "code-completion-llamacpp2"] {
        assert_eq!(resolve(name), None, "{:?}", name);
    }
}

#[test]
fn every_backend_is_found_under_its_tool_name() {
    for backend in [Backend::Ollama, Backend::LlamaCpp] {
        assert_eq!(resolve(backend.tool_name()), Some(backend));
    }
    assert_eq!(Backend::Ollama.tool_name(), "code-completion-ollama");
    assert_eq!(Backend::LlamaCpp.tool_name(), "code-completion-llamacpp");
}
