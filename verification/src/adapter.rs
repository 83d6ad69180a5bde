//! The backend adapters: what is sent to a backend for a prefix, under which
//! deadlines, and what its answer, or the lack of one, amounts to.
//!
//! The HTTP exchange itself happens outside this library. An adapter hands
//! out an [`UpstreamRequest`], and takes back what became of it as an
//! [`Upstream`].

use crate::config::{
    configured, default_llamacpp_url, default_ollama_model, default_ollama_url, or_default,
    Settings, SettingsView,
};
use crate::extractor::{completion, extract};
use crate::json::{optional_value, parsed, Json, JsonValue};
use crate::registry::Backend;
use crate::text::{
    decimal, decimal_text, escape_quotes, escaped, lemma_escape_round_trip,
    lemma_escaped_quotes_are_guarded, unescaped,
};
use vstd::prelude::*;
use vstd::string::StringExecFns;

verus! {

/// Seconds after which a call to a backend is given up, connection and body
/// transfer with it. This is the deadline that is meant to fire.
pub const OUTER_DEADLINE_SECS: u64 = 8;

/// Seconds after which the HTTP client gives up by itself: the second line
/// of defense, behind the outer deadline.
pub const CLIENT_DEADLINE_SECS: u64 = 10;

/// The text of the prompt before the embedded prefix.
pub open spec fn prompt_head() -> Seq<char> {
    "You are a concise code/command-completion assistant. The user typed: \""@
}

/// The text of the prompt behind the embedded prefix.
pub open spec fn prompt_tail() -> Seq<char> {
    "\".\nReturn only the completion/continuation (no explanation)."@
}

/// The prompt for `prefix`: the fixed instruction, with the prefix embedded
/// between double quotes and its own double quotes escaped.
pub open spec fn prompt(prefix: Seq<char>) -> Seq<char> {
    prompt_head() + escaped(prefix) + prompt_tail()
}

/// A request to a backend, as mathematical value.
pub ghost struct UpstreamRequestView {
    pub url: Seq<char>,
    pub body: JsonValue,
    pub outer_deadline_secs: u64,
    pub client_deadline_secs: u64,
}

/// A request to a backend: an HTTP POST of `body`, as JSON, to `url`.
#[derive(Debug, PartialEq, Eq)]
pub struct UpstreamRequest {
    pub url: String,
    pub body: Json,
    /// The deadline around the whole exchange.
    pub outer_deadline_secs: u64,
    /// The deadline that the HTTP client is given.
    pub client_deadline_secs: u64,
}

impl View for UpstreamRequest {
    type V = UpstreamRequestView;

    open spec fn view(&self) -> UpstreamRequestView {
        UpstreamRequestView {
            url: self.url@,
            body: self.body@,
            outer_deadline_secs: self.outer_deadline_secs,
            client_deadline_secs: self.client_deadline_secs,
        }
    }
}

impl Backend {
    /// The URL that the backend is reached at.
    pub open spec fn endpoint(self, settings: SettingsView) -> Seq<char> {
        match self {
            Backend::Ollama => configured(settings.ollama_url, default_ollama_url()),
            Backend::LlamaCpp => configured(settings.llamacpp_url, default_llamacpp_url()),
        }
    }

    /// The JSON body that asks the backend to complete `prefix`.
    pub open spec fn body(self, prefix: Seq<char>, settings: SettingsView) -> JsonValue {
        match self {
            Backend::Ollama => JsonValue::Object(
                seq![
                    (
                        "model"@,
                        JsonValue::Text(configured(settings.ollama_model, default_ollama_model())),
                    ),
                    ("prompt"@, JsonValue::Text(prompt(prefix))),
                    ("stream"@, JsonValue::Bool(false)),
                ],
            ),
            Backend::LlamaCpp => JsonValue::Object(
                seq![("prompt"@, JsonValue::Text(prompt(prefix)))],
            ),
        }
    }

    /// The request that asks the backend to complete `prefix`.
    pub open spec fn planned(
        self,
        prefix: Seq<char>,
        settings: SettingsView,
    ) -> UpstreamRequestView {
        UpstreamRequestView {
            url: self.endpoint(settings),
            body: self.body(prefix, settings),
            outer_deadline_secs: OUTER_DEADLINE_SECS,
            client_deadline_secs: CLIENT_DEADLINE_SECS,
        }
    }

    /// The request that asks the backend to complete `prefix`. The outer
    /// deadline is the tighter of the two, so that it is the one to fire.
    pub fn request(&self, prefix: &str, settings: &Settings) -> (request: UpstreamRequest)
        ensures
            request@ == self.planned(prefix@, settings@),
            request.outer_deadline_secs < request.client_deadline_secs,
    {
        let text = build_prompt(prefix);
        let (url, body) = match self {
            Backend::Ollama => {
                let url = or_default(&settings.ollama_url, "http://127.0.0.1:11434/api/generate");
                let model = or_default(&settings.ollama_model, "qwen2.5-coder:7b");
                let members = vec![
                    (String::from_str("model"), Json::Text(model)),
                    (String::from_str("prompt"), Json::Text(text)),
                    (String::from_str("stream"), Json::Bool(false)),
                ];
                let body = Json::object(members);
                assert(body@->Object_0 =~= self.body(prefix@, settings@)->Object_0);
                (url, body)
            },
            Backend::LlamaCpp => {
                let url = or_default(&settings.llamacpp_url, "http://127.0.0.1:8080/completion");
                let members = vec![(String::from_str("prompt"), Json::Text(text))];
                let body = Json::object(members);
                assert(body@->Object_0 =~= self.body(prefix@, settings@)->Object_0);
                (url, body)
            },
        };
        UpstreamRequest {
            url,
            body,
            outer_deadline_secs: OUTER_DEADLINE_SECS,
            client_deadline_secs: CLIENT_DEADLINE_SECS,
        }
    }
}

/// The prompt for `prefix`.
pub fn build_prompt(prefix: &str) -> (text: String)
    ensures
        text@ == prompt(prefix@),
{
    let inner = escape_quotes(prefix);
    let text = String::from_str(
        "You are a concise code/command-completion assistant. The user typed: \"",
    );
    let text = text.concat(inner.as_str());
    text.concat("\".\nReturn only the completion/continuation (no explanation).")
}

/// What became of the one attempt to call a backend.
#[derive(Debug, Clone, PartialEq, Eq)]
pub enum Upstream {
    /// The outer deadline passed before the exchange was over.
    DeadlineExceeded,
    /// The exchange failed in transport; the text says how.
    Unreachable(String),
    /// The backend answered with this HTTP status and body.
    Answered { status: u16, body: Vec<u8> },
}

/// What became of the attempt, as mathematical value.
pub ghost enum UpstreamView {
    DeadlineExceeded,
    Unreachable(Seq<char>),
    Answered { status: u16, body: Seq<u8> },
}

impl View for Upstream {
    type V = UpstreamView;

    open spec fn view(&self) -> UpstreamView {
        match self {
            Upstream::DeadlineExceeded => UpstreamView::DeadlineExceeded,
            Upstream::Unreachable(why) => UpstreamView::Unreachable(why@),
            Upstream::Answered { status, body } => UpstreamView::Answered {
                status: *status,
                body: body@,
            },
        }
    }
}

/// Why a call to a backend yielded no completion.
#[derive(Debug, Clone, PartialEq, Eq)]
pub enum Failure {
    /// The outer deadline passed.
    DeadlineExceeded,
    /// The exchange failed in transport; the text says how.
    Transport(String),
    /// The backend answered with a status outside 200 to 299.
    Status(u16),
    /// The backend's body is no JSON document.
    MalformedBody,
}

/// A failure as mathematical value.
pub ghost enum FailureView {
    DeadlineExceeded,
    Transport(Seq<char>),
    Status(u16),
    MalformedBody,
}

impl View for Failure {
    type V = FailureView;

    open spec fn view(&self) -> FailureView {
        match self {
            Failure::DeadlineExceeded => FailureView::DeadlineExceeded,
            Failure::Transport(why) => FailureView::Transport(why@),
            Failure::Status(status) => FailureView::Status(*status),
            Failure::MalformedBody => FailureView::MalformedBody,
        }
    }
}

impl FailureView {
    /// The failure in words.
    pub open spec fn description(self) -> Seq<char> {
        match self {
            FailureView::DeadlineExceeded => "deadline has elapsed"@,
            FailureView::Transport(why) => why,
            FailureView::Status(status) => "upstream returned HTTP status "@ + decimal(
                status as nat,
            ),
            FailureView::MalformedBody => "error decoding response body"@,
        }
    }
}

impl Failure {
    /// The failure in words.
    pub fn describe(&self) -> (text: String)
        ensures
            text@ == self@.description(),
    {
        match self {
            Failure::DeadlineExceeded => String::from_str("deadline has elapsed"),
            Failure::Transport(why) => why.clone(),
            Failure::Status(status) => {
                let numeral = decimal_text(*status);
                String::from_str("upstream returned HTTP status ").concat(numeral.as_str())
            },
            Failure::MalformedBody => String::from_str("error decoding response body"),
        }
    }
}

/// Whether an HTTP status reports success: 200 to 299.
pub open spec fn is_success(status: u16) -> bool {
    200 <= status <= 299
}

/// Whether an HTTP status reports success.
pub fn status_is_success(status: u16) -> (success: bool)
    ensures
        success == is_success(status),
{
    200 <= status && status <= 299
}

/// What a backend's answer amounts to, given its status and the document
/// that its body holds, if it holds one.
pub open spec fn judged(status: u16, doc: Option<JsonValue>) -> Result<Seq<char>, FailureView> {
    if !is_success(status) {
        Err(FailureView::Status(status))
    } else {
        match doc {
            Some(doc) => Ok(completion(doc)),
            None => Err(FailureView::MalformedBody),
        }
    }
}

/// What the attempt amounts to: the completion, or the failure.
pub open spec fn outcome(event: UpstreamView) -> Result<Seq<char>, FailureView> {
    match event {
        UpstreamView::DeadlineExceeded => Err(FailureView::DeadlineExceeded),
        UpstreamView::Unreachable(why) => Err(FailureView::Transport(why)),
        UpstreamView::Answered { status, body } => judged(status, parsed(body)),
    }
}

/// The outcome of a call as mathematical value.
pub open spec fn outcome_value(result: Result<String, Failure>) -> Result<Seq<char>, FailureView> {
    match result {
        Ok(text) => Ok(text@),
        Err(failure) => Err(failure@),
    }
}

/// What a backend's answer amounts to, given its status and the document
/// that its body holds: a status outside 200 to 299 is a failure whatever the
/// body holds, and so is a body that holds no document.
pub fn judge(status: u16, doc: Option<Json>) -> (result: Result<String, Failure>)
    ensures
        outcome_value(result) == judged(status, optional_value(doc)),
{
    if !status_is_success(status) {
        Err(Failure::Status(status))
    } else {
        match doc {
            Some(doc) => Ok(extract(&doc)),
            None => Err(Failure::MalformedBody),
        }
    }
}

/// What the attempt amounts to. There is one attempt and no retry: every
/// failure is final.
pub fn settle(event: Upstream) -> (result: Result<String, Failure>)
    ensures
        outcome_value(result) == outcome(event@),
{
    match event {
        Upstream::DeadlineExceeded => Err(Failure::DeadlineExceeded),
        Upstream::Unreachable(why) => Err(Failure::Transport(why)),
        Upstream::Answered { status, body } => {
            let doc = if status_is_success(status) {
                Json::parse(body.as_slice())
            } else {
                None
            };
            judge(status, doc)
        },
    }
}

/// The outer deadline is the tighter one: it fires before the client's own.
pub proof fn lemma_outer_deadline_fires_first()
    ensures
        OUTER_DEADLINE_SECS < CLIENT_DEADLINE_SECS,
{
}

/// The prompt holds the prefix between its fixed head and tail, and the
/// prefix can be read back from there, double quotes and all.
pub proof fn lemma_prompt_embeds_prefix(prefix: Seq<char>)
    ensures
        ({
            let p = prompt(prefix);
            let from: int = prompt_head().len() as int;
            let to: int = p.len() - prompt_tail().len();
            &&& from <= to
            &&& p.subrange(0, from) == prompt_head()
            &&& p.subrange(to, p.len() as int) == prompt_tail()
            &&& p.subrange(from, to) == escaped(prefix)
            &&& unescaped(p.subrange(from, to)) == prefix
        }),
{
    let p = prompt(prefix);
    let from: int = prompt_head().len() as int;
    let to: int = p.len() - prompt_tail().len();
    lemma_escape_round_trip(prefix);
    assert(p.subrange(0, from) =~= prompt_head());
    assert(p.subrange(to, p.len() as int) =~= prompt_tail());
    assert(p.subrange(from, to) =~= escaped(prefix));
}

/// Inside the prompt, every double quote of the embedded prefix stands
/// directly behind a backslash: the prefix cannot end the quotation that
/// holds it.
pub proof fn lemma_prompt_guards_embedded_quotes(prefix: Seq<char>, i: int)
    requires
        prompt_head().len() <= i < prompt(prefix).len() - prompt_tail().len(),
        prompt(prefix)[i] == '"',
    ensures
        prompt(prefix)[i - 1] == '\\',
{
    let from: int = prompt_head().len() as int;
    lemma_prompt_embeds_prefix(prefix);
    lemma_escaped_quotes_are_guarded(prefix, i - from);
}

/// Different prefixes get different prompts.
pub proof fn lemma_prompt_is_injective(a: Seq<char>, b: Seq<char>)
    requires
        prompt(a) == prompt(b),
    ensures
        a == b,
{
    lemma_prompt_embeds_prefix(a);
    lemma_prompt_embeds_prefix(b);
    let pa = prompt(a);
    assert(escaped(a).len() == pa.len() - prompt_head().len() - prompt_tail().len());
    assert(escaped(b).len() == pa.len() - prompt_head().len() - prompt_tail().len());
}

/// Every failure of the attempt is reported: only an answer with a status
/// from 200 to 299 and a JSON body yields a completion, and that completion
/// is the one the extractor reads from the body.
pub proof fn lemma_success_needs_a_good_answer(event: UpstreamView)
    ensures
        outcome(event) is Ok <==> (event matches UpstreamView::Answered { status, body }
            && is_success(status) && parsed(body) is Some),
        outcome(event) matches Ok(text) ==> (event matches UpstreamView::Answered { body, .. }
            && text == completion(parsed(body)->0)),
{
}

} // verus!
