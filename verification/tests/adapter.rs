use completion_gateway::adapter::{
    build_prompt, judge, settle, Failure, Upstream, CLIENT_DEADLINE_SECS, OUTER_DEADLINE_SECS,
};
use completion_gateway::config::Settings;
use completion_gateway::json::Json;
use completion_gateway::registry::Backend;

fn no_settings() -> Settings {
    Settings::unset()
}

fn answered(status: u16, body: &str) -> Upstream {
    Upstream::Answered { status, body: body.as_bytes().to_vec() }
}

#[test]
fn prompt_embeds_the_prefix() {
    assert_eq!(
        build_prompt("git sta"),
        "You are a concise code/command-completion assistant. The user typed: \"git sta\".\nReturn only the completion/continuation (no explanation)."
    );
}

#[test]
fn prompt_of_the_empty_prefix() {
    assert_eq!(
        build_prompt(""),
        "You are a concise code/command-completion assistant. The user typed: \"\".\nReturn only the completion/continuation (no explanation)."
    );
}

#[test]
fn prompt_escapes_double_quotes() {
    assert_eq!(
        build_prompt("echo \"hi"),
        "You are a concise code/command-completion assistant. The user typed: \"echo \\\"hi\".\nReturn only the completion/continuation (no explanation)."
    );
}

#[test]
fn prompt_with_quotes_stays_a_valid_json_member() {
    let request = Backend::LlamaCpp.request("say \"x\" and \\", &no_settings());
    let sent = request.body.to_text();
    let back = Json::parse(sent.as_bytes()).unwrap();
    assert_eq!(back.get_str("prompt"), Some(build_prompt("say \"x\" and \\").as_str()));
    assert_eq!(back, request.body);
}

#[test]
fn ollama_request_with_defaults() {
    let request = Backend::Ollama.request("ls", &no_settings());
    assert_eq!(request.url, "http://127.0.0.1:11434/api/generate");
    assert_eq!(
        request.body,
        Json::Object(vec![
            ("model".to_string(), Json::Text("qwen2.5-coder:7b".to_string())),
            ("prompt".to_string(), Json::Text(build_prompt("ls"))),
            ("stream".to_string(), Json::Bool(false)),
        ])
    );
    assert_eq!(request.outer_deadline_secs, 8);
    assert_eq!(request.client_deadline_secs, 10);
}

#[test]
fn ollama_request_with_settings() {
    let settings = Settings {
        ollama_url: Some("http://gpu:1/api/generate".to_string()),
        ollama_model: Some("llama3.2".to_string()),
        llamacpp_url: Some("http://unused".to_string()),
    };
    let request = Backend::Ollama.request("", &settings);
    assert_eq!(request.url, "http://gpu:1/api/generate");
    assert_eq!(request.body.get_str("model"), Some("llama3.2"));
    assert_eq!(request.body.get("stream"), Some(&Json::Bool(false)));
    assert_eq!(request.body.get_str("prompt"), Some(build_prompt("").as_str()));
}

#[test]
fn ollama_body_on_the_wire() {
    let request = Backend::Ollama.request("x", &no_settings());
    assert_eq!(
        request.body.to_text(),
        "{\"model\":\"qwen2.5-coder:7b\",\"prompt\":\"You are a concise code/command-completion assistant. The user typed: \\\"x\\\".\\nReturn only the completion/continuation (no explanation).\",\"stream\":false}"
    );
}

#[test]
fn llamacpp_request_with_defaults() {
    let request = Backend::LlamaCpp.request("ls", &no_settings());
    assert_eq!(request.url, "http://127.0.0.1:8080/completion");
    assert_eq!(
        request.body,
        Json::Object(vec![("prompt".to_string(), Json::Text(build_prompt("ls")))])
    );
    assert_eq!(request.outer_deadline_secs, 8);
    assert_eq!(request.client_deadline_secs, 10);
}

#[test]
fn llamacpp_request_with_settings() {
    let settings = Settings {
        ollama_url: Some("http://unused".to_string()),
        ollama_model: Some("unused".to_string()),
        llamacpp_url: Some("http://box:9/completion".to_string()),
    };
    let request = Backend::LlamaCpp.request("ls", &settings);
    assert_eq!(request.url, "http://box:9/completion");
    assert_eq!(request.body.get("model"), None);
    assert_eq!(request.body.get("stream"), None);
}

#[test]
fn outer_deadline_is_the_tighter_one() {
    assert_eq!(OUTER_DEADLINE_SECS, 8);
    assert_eq!(CLIENT_DEADLINE_SECS, 10);
    assert!(OUTER_DEADLINE_SECS < CLIENT_DEADLINE_SECS);
}

#[test]
fn settle_reads_the_completion() {
    assert_eq!(settle(answered(200, "{\"response\": \"foo  \"}")), Ok("foo".to_string()));
    assert_eq!(settle(answered(200, "{\"text\": \"bar\"}")), Ok("bar".to_string()));
    assert_eq!(settle(answered(201, "{\"choices\": [{\"text\": \"baz\"}]}")), Ok("baz".to_string()));
    assert_eq!(
        settle(answered(299, "{\"choices\": [{\"message\": {\"content\": \"qux\"}}]}")),
        Ok("qux".to_string())
    );
    assert_eq!(settle(answered(200, "{\"foo\": 1}")), Ok("{\"foo\":1}".to_string()));
}

#[test]
fn settle_reports_a_missed_deadline() {
    assert_eq!(settle(Upstream::DeadlineExceeded), Err(Failure::DeadlineExceeded));
}

#[test]
fn settle_reports_a_transport_failure() {
    assert_eq!(
        settle(Upstream::Unreachable("connection refused".to_string())),
        Err(Failure::Transport("connection refused".to_string()))
    );
}

#[test]
fn settle_reports_every_status_outside_2xx() {
    for status in [0u16, 100, 199, 300, 301, 304, 400, 404, 500, 503, 999] {
        assert_eq!(
            settle(answered(status, "{\"response\": \"ignored\"}")),
            Err(Failure::Status(status))
        );
    }
}

#[test]
fn settle_reports_a_bad_status_before_a_bad_body() {
    assert_eq!(settle(answered(500, "<html>")), Err(Failure::Status(500)));
}

#[test]
fn settle_reports_a_malformed_body() {
    assert_eq!(settle(answered(200, "<html>")), Err(Failure::MalformedBody));
    assert_eq!(settle(answered(200, "")), Err(Failure::MalformedBody));
    assert_eq!(settle(answered(200, "{\"response\": \"cut")), Err(Failure::MalformedBody));
}

#[test]
fn judge_goes_by_status_then_document() {
    let doc = || Json::parse(b"{\"text\": \" t \"}");
    assert_eq!(judge(200, doc()), Ok("t".to_string()));
    assert_eq!(judge(204, None), Err(Failure::MalformedBody));
    assert_eq!(judge(404, doc()), Err(Failure::Status(404)));
    assert_eq!(judge(199, None), Err(Failure::Status(199)));
    assert_eq!(judge(300, None), Err(Failure::Status(300)));
}

#[test]
fn failures_are_described() {
    assert_eq!(Failure::DeadlineExceeded.describe(), "deadline has elapsed");
    assert_eq!(Failure::Transport("no route to host".to_string()).describe(), "no route to host");
    assert_eq!(Failure::Status(404).describe(), "upstream returned HTTP status 404");
    assert_eq!(Failure::Status(500).describe(), "upstream returned HTTP status 500");
    assert_eq!(Failure::Status(7).describe(), "upstream returned HTTP status 7");
    assert_eq!(Failure::MalformedBody.describe(), "error decoding response body");
}

#[test]
fn settling_is_repeatable() {
    let event = answered(200, "{\"response\": \" same \"}");
    assert_eq!(settle(event.clone()), settle(event));
}
