//! The RPC gateway: from one inbound envelope to one reply.
//!
//! The gateway holds no state. [`route`] decides whether an envelope is
//! answered at once or leads to a call of a backend; [`conclude`] turns what
//! became of that call into the reply. [`handle`] is the two in one, for a
//! call whose end is known.

use crate::adapter::{
    outcome, outcome_value, settle, Failure, FailureView, Upstream, UpstreamRequest, UpstreamView,
};
use crate::config::Settings;
use crate::json::{optional_value, Json, JsonValue};
use crate::registry::{registered, resolve, Backend};
use crate::text::same_text;
use vstd::prelude::*;
use vstd::string::StringExecFns;

verus! {

/// The HTTP status of a reply that carries a completion.
pub const STATUS_OK: u16 = 200;

/// The HTTP status of a reply to a call that names no supported method or no
/// known tool.
pub const STATUS_BAD_REQUEST: u16 = 400;

/// The HTTP status of a reply to a call whose backend failed.
pub const STATUS_INTERNAL_ERROR: u16 = 500;

/// An inbound envelope as mathematical value.
pub ghost struct EnvelopeView {
    pub method: Seq<char>,
    pub params: Option<JsonValue>,
    pub id: Option<JsonValue>,
}

/// An inbound envelope, decoded.
#[derive(Debug, PartialEq, Eq)]
pub struct Envelope {
    /// The method called; only `callTool` is served.
    pub method: String,
    /// The tool's name and arguments, if any were sent.
    pub params: Option<Json>,
    /// The caller's mark on the call, echoed in the reply.
    pub id: Option<Json>,
}

impl View for Envelope {
    type V = EnvelopeView;

    open spec fn view(&self) -> EnvelopeView {
        EnvelopeView {
            method: self.method@,
            params: optional_value(self.params),
            id: optional_value(self.id),
        }
    }
}

/// The symbolic code of a failure, as the outbound envelope carries it.
#[derive(Debug, Clone, Copy, PartialEq, Eq, Structural)]
pub enum ErrorCode {
    /// The method is not the one that is served.
    UnsupportedMethod,
    /// The tool's name is not in the registry.
    UnknownTool,
    /// The call of the backend failed.
    InternalError,
}

impl ErrorCode {
    /// The code as it is written in an envelope.
    pub open spec fn wire(self) -> Seq<char> {
        match self {
            ErrorCode::UnsupportedMethod => "unsupported_method"@,
            ErrorCode::UnknownTool => "unknown_tool"@,
            ErrorCode::InternalError => "internal_error"@,
        }
    }

    /// The code as it is written in an envelope.
    pub fn as_str(&self) -> (code: &'static str)
        ensures
            code@ == self.wire(),
    {
        match self {
            ErrorCode::UnsupportedMethod => "unsupported_method",
            ErrorCode::UnknownTool => "unknown_tool",
            ErrorCode::InternalError => "internal_error",
        }
    }
}

/// What an outbound envelope carries, as mathematical value.
pub ghost enum PayloadView {
    Completion(Seq<char>),
    Error { code: ErrorCode, message: Seq<char> },
}

/// What an outbound envelope carries: a result or an error, never both and
/// never neither.
#[derive(Debug, Clone, PartialEq, Eq)]
pub enum Payload {
    /// The result of a call that succeeded: the completion.
    Completion(String),
    /// The error of a call that failed.
    Error { code: ErrorCode, message: String },
}

impl View for Payload {
    type V = PayloadView;

    open spec fn view(&self) -> PayloadView {
        match self {
            Payload::Completion(text) => PayloadView::Completion(text@),
            Payload::Error { code, message } => PayloadView::Error {
                code: *code,
                message: message@,
            },
        }
    }
}

/// An outbound envelope as mathematical value.
pub ghost struct OutboundView {
    pub id: JsonValue,
    pub payload: PayloadView,
}

/// An outbound envelope.
#[derive(Debug, PartialEq, Eq)]
pub struct Outbound {
    /// The inbound envelope's `id`, or null.
    pub id: Json,
    pub payload: Payload,
}

impl View for Outbound {
    type V = OutboundView;

    open spec fn view(&self) -> OutboundView {
        OutboundView { id: self.id@, payload: self.payload@ }
    }
}

/// A reply as mathematical value.
pub ghost struct ReplyView {
    pub status: u16,
    pub envelope: OutboundView,
}

/// The reply to one inbound envelope: an HTTP status and the outbound
/// envelope.
#[derive(Debug, PartialEq, Eq)]
pub struct Reply {
    pub status: u16,
    pub envelope: Outbound,
}

impl View for Reply {
    type V = ReplyView;

    open spec fn view(&self) -> ReplyView {
        ReplyView { status: self.status, envelope: self.envelope@ }
    }
}

/// A call that a backend is to serve, as mathematical value.
pub ghost struct PendingView {
    pub backend: Backend,
    pub prefix: Seq<char>,
    pub id: JsonValue,
}

/// A call that a backend is to serve.
#[derive(Debug, PartialEq, Eq)]
pub struct Pending {
    /// The backend that the tool's name selects.
    pub backend: Backend,
    /// The text to complete.
    pub prefix: String,
    /// The `id` to echo when the call succeeds.
    pub id: Json,
}

impl View for Pending {
    type V = PendingView;

    open spec fn view(&self) -> PendingView {
        PendingView { backend: self.backend, prefix: self.prefix@, id: self.id@ }
    }
}

impl Pending {
    /// The request that asks the backend to serve the call.
    pub fn request(&self, settings: &Settings) -> (request: UpstreamRequest)
        ensures
            request@ == self.backend.planned(self.prefix@, settings@),
            request.outer_deadline_secs < request.client_deadline_secs,
    {
        self.backend.request(self.prefix.as_str(), settings)
    }
}

/// What an inbound envelope leads to, as mathematical value.
pub ghost enum StepView {
    Respond(ReplyView),
    Call(PendingView),
}

/// What an inbound envelope leads to.
#[derive(Debug, PartialEq, Eq)]
pub enum Step {
    /// The envelope is answered at once.
    Respond(Reply),
    /// A backend is to be called; its outcome decides the reply.
    Call(Pending),
}

impl View for Step {
    type V = StepView;

    open spec fn view(&self) -> StepView {
        match self {
            Step::Respond(reply) => StepView::Respond(reply@),
            Step::Call(pending) => StepView::Call(pending@),
        }
    }
}

/// The `id` that a reply echoes: the caller's, or null where none was sent.
pub open spec fn echoed(id: Option<JsonValue>) -> JsonValue {
    match id {
        Some(id) => id,
        None => JsonValue::Null,
    }
}

/// A tool call as mathematical value.
pub ghost struct ToolCallView {
    pub name: Seq<char>,
    pub arguments: Option<JsonValue>,
}

/// The tool call that an envelope's `params` hold.
#[derive(Debug, Clone, Copy, PartialEq, Eq)]
pub struct ToolCall<'a> {
    /// The name that selects the backend; empty where none was sent.
    pub name: &'a str,
    /// What the tool is handed, if anything was sent.
    pub arguments: Option<&'a Json>,
}

impl<'a> View for ToolCall<'a> {
    type V = ToolCallView;

    open spec fn view(&self) -> ToolCallView {
        ToolCallView {
            name: self.name@,
            arguments: match self.arguments {
                Some(a) => Some(a@),
                None => None,
            },
        }
    }
}

/// The tool call that `params` hold. Reading is lenient: the name is the
/// string member `name`, or empty where there is none, and the arguments are
/// the member `arguments`, if there is one.
pub open spec fn tool_call(params: Option<JsonValue>) -> ToolCallView {
    match params {
        Some(p) => ToolCallView {
            name: match p.text_member("name"@) {
                Some(name) => name,
                None => Seq::empty(),
            },
            arguments: p.member("arguments"@),
        },
        None => ToolCallView { name: Seq::empty(), arguments: None },
    }
}

impl ToolCallView {
    /// The text to complete: the string member `prefix` of the arguments, or
    /// the empty text where there is none.
    pub open spec fn prefix(self) -> Seq<char> {
        match self.arguments {
            Some(arguments) => match arguments.text_member("prefix"@) {
                Some(prefix) => prefix,
                None => Seq::empty(),
            },
            None => Seq::empty(),
        }
    }
}

/// The name of the tool that `params` call.
pub open spec fn tool_name(params: Option<JsonValue>) -> Seq<char> {
    tool_call(params).name
}

/// The prefix that `params` hand to the tool.
pub open spec fn tool_prefix(params: Option<JsonValue>) -> Seq<char> {
    tool_call(params).prefix()
}

/// The reply that reports a failure.
pub open spec fn error_reply(
    status: u16,
    id: JsonValue,
    code: ErrorCode,
    message: Seq<char>,
) -> ReplyView {
    ReplyView {
        status,
        envelope: OutboundView { id, payload: PayloadView::Error { code, message } },
    }
}

/// The reply that carries a completion.
pub open spec fn completion_reply(id: JsonValue, completion: Seq<char>) -> ReplyView {
    ReplyView {
        status: STATUS_OK,
        envelope: OutboundView { id, payload: PayloadView::Completion(completion) },
    }
}

/// What `envelope` leads to: a refusal of any method but `callTool`, a
/// refusal of a tool that the registry does not hold, or else the call of
/// the backend that the tool's name selects.
pub open spec fn routed(envelope: EnvelopeView) -> StepView {
    if envelope.method != "callTool"@ {
        StepView::Respond(
            error_reply(
                STATUS_BAD_REQUEST,
                echoed(envelope.id),
                ErrorCode::UnsupportedMethod,
                "Only callTool is supported"@,
            ),
        )
    } else {
        match registered(tool_name(envelope.params)) {
            Some(backend) => StepView::Call(
                PendingView {
                    backend,
                    prefix: tool_prefix(envelope.params),
                    id: echoed(envelope.id),
                },
            ),
            None => StepView::Respond(
                error_reply(
                    STATUS_BAD_REQUEST,
                    echoed(envelope.id),
                    ErrorCode::UnknownTool,
                    "Unknown tool: "@ + tool_name(envelope.params),
                ),
            ),
        }
    }
}

/// The reply to a call that a backend served with `outcome`. A completion is
/// sent with the caller's `id`; a failure is sent with a null `id`.
pub open spec fn concluded(id: JsonValue, outcome: Result<Seq<char>, FailureView>) -> ReplyView {
    match outcome {
        Ok(completion) => completion_reply(id, completion),
        Err(failure) => error_reply(
            STATUS_INTERNAL_ERROR,
            JsonValue::Null,
            ErrorCode::InternalError,
            failure.description(),
        ),
    }
}

/// The reply to `envelope`, where `event` is what becomes of the call of the
/// backend, if one is called.
pub open spec fn answered(envelope: EnvelopeView, event: UpstreamView) -> ReplyView {
    match routed(envelope) {
        StepView::Respond(reply) => reply,
        StepView::Call(pending) => concluded(pending.id, outcome(event)),
    }
}

/// The protocol version that every outbound envelope names.
pub open spec fn protocol_version() -> Seq<char> {
    "2.0"@
}

impl OutboundView {
    /// The member `result` of the envelope on the wire.
    pub open spec fn wire_result(self) -> JsonValue {
        match self.payload {
            PayloadView::Completion(text) => JsonValue::Object(
                seq![("completion"@, JsonValue::Text(text))],
            ),
            PayloadView::Error { .. } => JsonValue::Null,
        }
    }

    /// The member `error` of the envelope on the wire.
    pub open spec fn wire_error(self) -> JsonValue {
        match self.payload {
            PayloadView::Completion(_) => JsonValue::Null,
            PayloadView::Error { code, message } => JsonValue::Object(
                seq![
                    ("code"@, JsonValue::Text(code.wire())),
                    ("message"@, JsonValue::Text(message)),
                ],
            ),
        }
    }

    /// The envelope as the JSON document that goes on the wire.
    pub open spec fn wire(self) -> JsonValue {
        JsonValue::Object(
            seq![
                ("protocolVersion"@, JsonValue::Text(protocol_version())),
                ("id"@, self.id),
                ("result"@, self.wire_result()),
                ("error"@, self.wire_error()),
            ],
        )
    }
}

impl Outbound {
    /// The envelope as the JSON document that goes on the wire.
    pub fn into_json(self) -> (json: Json)
        ensures
            json@ == self@.wire(),
    {
        let ghost view = self@;
        let Outbound { id, payload } = self;
        let (result, error) = match payload {
            Payload::Completion(text) => {
                let members = vec![(String::from_str("completion"), Json::Text(text))];
                let result = Json::object(members);
                assert(result@->Object_0 =~= view.wire_result()->Object_0);
                (result, Json::Null)
            },
            Payload::Error { code, message } => {
                let members = vec![
                    (String::from_str("code"), Json::text(code.as_str())),
                    (String::from_str("message"), Json::Text(message)),
                ];
                let error = Json::object(members);
                assert(error@->Object_0 =~= view.wire_error()->Object_0);
                (Json::Null, error)
            },
        };
        let members = vec![
            (String::from_str("protocolVersion"), Json::text("2.0")),
            (String::from_str("id"), id),
            (String::from_str("result"), result),
            (String::from_str("error"), error),
        ];
        let json = Json::object(members);
        assert(json@->Object_0 =~= view.wire()->Object_0);
        json
    }
}

/// The envelope that reports a failure.
pub fn make_error(id: Json, code: ErrorCode, message: String) -> (envelope: Outbound)
    ensures
        envelope@ == (OutboundView {
            id: id@,
            payload: PayloadView::Error { code, message: message@ },
        }),
{
    Outbound { id, payload: Payload::Error { code, message } }
}

/// The `id` that a reply echoes.
pub fn echo(id: Option<Json>) -> (json: Json)
    ensures
        json@ == echoed(optional_value(id)),
{
    match id {
        Some(id) => id,
        None => Json::Null,
    }
}

/// The empty text.
fn empty_text() -> (text: &'static str)
    ensures
        text@ == Seq::<char>::empty(),
{
    proof {
        reveal_strlit("");
        assert(""@ =~= Seq::<char>::empty());
    }
    ""
}

impl<'a> ToolCall<'a> {
    /// The tool call that `params` hold.
    pub fn read(params: &'a Option<Json>) -> (call: ToolCall<'a>)
        ensures
            call@ == tool_call(optional_value(*params)),
    {
        match params {
            Some(p) => {
                let name = match p.get_str("name") {
                    Some(name) => name,
                    None => empty_text(),
                };
                ToolCall { name, arguments: p.get("arguments") }
            },
            None => ToolCall { name: empty_text(), arguments: None },
        }
    }

    /// The text to complete.
    pub fn prefix(&self) -> (prefix: &'a str)
        ensures
            prefix@ == self@.prefix(),
    {
        let found = match self.arguments {
            Some(arguments) => arguments.get_str("prefix"),
            None => None,
        };
        match found {
            Some(prefix) => prefix,
            None => empty_text(),
        }
    }
}

/// Decides what an inbound envelope leads to.
pub fn route(envelope: Envelope) -> (step: Step)
    ensures
        step@ == routed(envelope@),
{
    let Envelope { method, params, id } = envelope;
    if !same_text(method.as_str(), "callTool") {
        let message = String::from_str("Only callTool is supported");
        return Step::Respond(
            Reply {
                status: STATUS_BAD_REQUEST,
                envelope: make_error(echo(id), ErrorCode::UnsupportedMethod, message),
            },
        );
    }
    let call = ToolCall::read(&params);
    match resolve(call.name) {
        Some(backend) => {
            let prefix = String::from_str(call.prefix());
            Step::Call(Pending { backend, prefix, id: echo(id) })
        },
        None => {
            let message = String::from_str("Unknown tool: ").concat(call.name);
            Step::Respond(
                Reply {
                    status: STATUS_BAD_REQUEST,
                    envelope: make_error(echo(id), ErrorCode::UnknownTool, message),
                },
            )
        },
    }
}

/// The reply to a call with the mark `id` that a backend served with
/// `outcome`.
pub fn finish(id: Json, outcome: Result<String, Failure>) -> (reply: Reply)
    ensures
        reply@ == concluded(id@, outcome_value(outcome)),
{
    match outcome {
        Ok(completion) => Reply {
            status: STATUS_OK,
            envelope: Outbound { id, payload: Payload::Completion(completion) },
        },
        Err(failure) => Reply {
            status: STATUS_INTERNAL_ERROR,
            envelope: make_error(Json::Null, ErrorCode::InternalError, failure.describe()),
        },
    }
}

/// The reply to the call `pending`, given what became of the attempt to
/// reach its backend.
pub fn conclude(pending: Pending, event: Upstream) -> (reply: Reply)
    ensures
        reply@ == concluded(pending@.id, outcome(event@)),
{
    let Pending { backend: _, prefix: _, id } = pending;
    let result = settle(event);
    finish(id, result)
}

/// The reply to `envelope`, where `event` is what becomes of the call of the
/// backend, if one is called.
pub fn handle(envelope: Envelope, event: Upstream) -> (reply: Reply)
    ensures
        reply@ == answered(envelope@, event@),
{
    match route(envelope) {
        Step::Respond(reply) => reply,
        Step::Call(pending) => conclude(pending, event),
    }
}

/// Any method but `callTool` is refused: status 400, code
/// `unsupported_method`, and the caller's `id` or null.
pub proof fn lemma_other_methods_are_refused(envelope: EnvelopeView, event: UpstreamView)
    requires
        envelope.method != "callTool"@,
    ensures
        answered(envelope, event) == error_reply(
            STATUS_BAD_REQUEST,
            echoed(envelope.id),
            ErrorCode::UnsupportedMethod,
            "Only callTool is supported"@,
        ),
        answered(envelope, event).status == 400,
        answered(envelope, event).envelope.payload matches PayloadView::Error { code, .. }
            && code.wire() == "unsupported_method"@,
{
}

/// A tool name that the registry does not hold is refused: status 400, code
/// `unknown_tool`, the name at the end of the message, and the caller's `id`
/// or null.
pub proof fn lemma_unknown_tools_are_refused(envelope: EnvelopeView, event: UpstreamView)
    requires
        envelope.method == "callTool"@,
        registered(tool_name(envelope.params)) is None,
    ensures
        answered(envelope, event) == error_reply(
            STATUS_BAD_REQUEST,
            echoed(envelope.id),
            ErrorCode::UnknownTool,
            "Unknown tool: "@ + tool_name(envelope.params),
        ),
        answered(envelope, event).status == 400,
        answered(envelope, event).envelope.payload matches PayloadView::Error { code, message }
            && code.wire() == "unknown_tool"@ && message.subrange(
            message.len() - tool_name(envelope.params).len(),
            message.len() as int,
        ) == tool_name(envelope.params),
{
    let name = tool_name(envelope.params);
    let message = "Unknown tool: "@ + name;
    assert(message.subrange(message.len() - name.len(), message.len() as int) =~= name);
}

/// A call of a known tool whose backend fails, in whichever way, is answered
/// with status 500, code `internal_error`, the failure in words and a null
/// `id`.
pub proof fn lemma_failures_are_internal_errors(envelope: EnvelopeView, event: UpstreamView)
    requires
        envelope.method == "callTool"@,
        registered(tool_name(envelope.params)) is Some,
        outcome(event) is Err,
    ensures
        answered(envelope, event) == error_reply(
            STATUS_INTERNAL_ERROR,
            JsonValue::Null,
            ErrorCode::InternalError,
            outcome(event)->Err_0.description(),
        ),
        answered(envelope, event).status == 500,
        answered(envelope, event).envelope.payload matches PayloadView::Error { code, .. }
            && code.wire() == "internal_error"@,
{
}

/// A call of a known tool that runs into the outer deadline is answered as
/// an internal error.
pub proof fn lemma_missed_deadline_is_an_internal_error(envelope: EnvelopeView)
    requires
        envelope.method == "callTool"@,
        registered(tool_name(envelope.params)) is Some,
    ensures
        answered(envelope, UpstreamView::DeadlineExceeded) == error_reply(
            STATUS_INTERNAL_ERROR,
            JsonValue::Null,
            ErrorCode::InternalError,
            "deadline has elapsed"@,
        ),
{
}

/// A call of a known tool whose backend answers with a completion is
/// answered with status 200, that completion and the caller's `id` or null.
pub proof fn lemma_completions_are_passed_on(envelope: EnvelopeView, event: UpstreamView)
    requires
        envelope.method == "callTool"@,
        registered(tool_name(envelope.params)) is Some,
        outcome(event) is Ok,
    ensures
        answered(envelope, event) == completion_reply(echoed(envelope.id), outcome(event)->Ok_0),
        answered(envelope, event).status == 200,
{
}

/// No reply has a status other than 200, 400 and 500, and a reply carries a
/// completion exactly when its status is 200.
pub proof fn lemma_statuses_are_three(envelope: EnvelopeView, event: UpstreamView)
    ensures
        ({
            let reply = answered(envelope, event);
            &&& reply.status == 200 || reply.status == 400 || reply.status == 500
            &&& reply.status == 200 <==> reply.envelope.payload is Completion
        }),
{
}

/// The same call with the same end gets the same reply: a reply depends on
/// what the envelope and the backend's answer hold, and on nothing else.
pub proof fn lemma_same_call_same_reply(a: Envelope, b: Envelope, x: Upstream, y: Upstream)
    requires
        a@ == b@,
        x@ == y@,
    ensures
        answered(a@, x@) == answered(b@, y@),
{
}

} // verus!
