use completion_gateway::config::{bind_address, or_default, Settings};

#[test]
fn or_default_prefers_what_is_set() {
    assert_eq!(or_default(&Some("set".to_string()), "default"), "set");
    assert_eq!(or_default(&Some(String::new()), "default"), "");
    assert_eq!(or_default(&None, "default"), "default");
}

#[test]
fn bind_address_defaults_to_loopback() {
    assert_eq!(bind_address(&None), "127.0.0.1:3000");
    assert_eq!(bind_address(&Some("0.0.0.0:8000".to_string())), "0.0.0.0:8000");
}

#[test]
fn unset_settings_hold_nothing() {
    assert_eq!(
        Settings::unset(),
        Settings { ollama_url: None, ollama_model: None, llamacpp_url: None }
    );
}
