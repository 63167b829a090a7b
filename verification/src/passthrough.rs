//! The pass-through surface: the backend's native chat and generation
//! endpoints, which get content policy and redaction, and the fallback for
//! every other path, which is relayed as opaque bytes.

use vstd::prelude::*;
use crate::backend::{
    OllamaChatReply, OllamaChatReplyView, OllamaChatRequest, OllamaGenerateReply,
    OllamaGenerateReplyView, OllamaGenerateRequest,
};
use crate::gateway::{
    finished, guard_config, internal_error, screening_view, started, AppState, AppStateView,
    ErrorReply, ErrorReplyView,
};
use crate::interceptor::{
    alert_message, alert_text, find_policy_text, policy_text, security_alert,
    security_alert_message,
};
use crate::middleware::{Screening, ScreeningView};
use crate::prompt_guard::{
    conclusion, failure_message, first_step, ClassifierOutcome, ClassifierOutcomeView,
    ClassifierRequest, ClassifierRequestView, PolicyStepView, Verdict,
};
use crate::proxy::{
    forward, forwarded, headers_view, relay, relay_redacted, relayed, relayed_redacted, Header,
    HeaderView, OutboundRequest, OutboundRequestView, ProxyEnvelope, ProxyEnvelopeView,
    ProxyResponse, ProxyResponseView,
};

verus! {

/// The native endpoints that get content policy and redaction.
#[derive(Clone, Copy, Debug, PartialEq, Eq, Structural)]
pub enum Endpoint {
    /// `/api/chat`
    Chat,
    /// `/api/generate`
    Generate,
}

/// The path of a native endpoint.
pub open spec fn endpoint_path(endpoint: Endpoint) -> Seq<char> {
    match endpoint {
        Endpoint::Chat => "/api/chat"@,
        Endpoint::Generate => "/api/generate"@,
    }
}

impl Endpoint {
    /// The path of this endpoint.
    pub fn path(&self) -> (r: &'static str)
        ensures
            r@ == endpoint_path(*self),
    {
        match self {
            Endpoint::Chat => "/api/chat",
            Endpoint::Generate => "/api/generate",
        }
    }
}

/// An answer that the gateway makes in the backend's own shape.
#[derive(Clone, Debug, PartialEq, Eq)]
pub enum NativeReply {
    Chat(OllamaChatReply),
    Generate(OllamaGenerateReply),
}

/// The mathematical content of a [`NativeReply`].
pub enum NativeReplyView {
    Chat(OllamaChatReplyView),
    Generate(OllamaGenerateReplyView),
}

impl View for NativeReply {
    type V = NativeReplyView;

    open spec fn view(&self) -> NativeReplyView {
        match self {
            NativeReply::Chat(reply) => NativeReplyView::Chat(reply@),
            NativeReply::Generate(reply) => NativeReplyView::Generate(reply@),
        }
    }
}

/// What the gateway does next for a request to a native endpoint.
#[derive(Clone, Debug, PartialEq, Eq)]
pub enum NativeStep {
    /// Ask the guard model, then come back with its answer.
    Classify(ClassifierRequest),
    /// Send this request to the backend, then relay its response.
    Forward(OutboundRequest),
    /// Answer the caller; the backend is not contacted.
    Respond(NativeReply),
    /// Answer the caller with an error; the backend is not contacted.
    Fail(ErrorReply),
}

/// The mathematical content of a [`NativeStep`].
pub enum NativeStepView {
    Classify(ClassifierRequestView),
    Forward(OutboundRequestView),
    Respond(NativeReplyView),
    Fail(ErrorReplyView),
}

impl View for NativeStep {
    type V = NativeStepView;

    open spec fn view(&self) -> NativeStepView {
        match self {
            NativeStep::Classify(request) => NativeStepView::Classify(request@),
            NativeStep::Forward(request) => NativeStepView::Forward(request@),
            NativeStep::Respond(reply) => NativeStepView::Respond(reply@),
            NativeStep::Fail(error) => NativeStepView::Fail(error@),
        }
    }
}

/// The timestamp that the gateway's own native answers carry.
pub open spec fn reply_timestamp() -> Seq<char> {
    "2026-02-09T00:00:00Z"@
}

/// The answer that tells the caller of a native endpoint of a refusal.
pub open spec fn refusal_reply(endpoint: Endpoint, model: Seq<char>, refusal: Seq<char>) -> NativeReplyView {
    match endpoint {
        Endpoint::Chat => NativeReplyView::Chat(
            OllamaChatReplyView {
                model,
                created_at: reply_timestamp(),
                message: alert_message(refusal),
                done: true,
            },
        ),
        Endpoint::Generate => NativeReplyView::Generate(
            OllamaGenerateReplyView {
                model,
                created_at: reply_timestamp(),
                response: alert_text(refusal),
                done: true,
            },
        ),
    }
}

/// The request that relays a payload to a native endpoint: a POST to the
/// backend's base URL followed by the endpoint's path, with the caller's
/// end-to-end headers and the payload as encoded by the caller.
pub open spec fn native_forward(
    state: AppStateView,
    endpoint: Endpoint,
    headers: Seq<HeaderView>,
    body: Seq<u8>,
) -> OutboundRequestView {
    forwarded(
        state.ollama_url,
        ProxyEnvelopeView {
            method: "POST"@,
            path_and_query: endpoint_path(endpoint),
            headers,
            body,
        },
    )
}

/// The step that follows the screening of a request to a native endpoint. A
/// request without policy text, or whose text passes, is forwarded. A refused
/// one is answered in place, and the backend is not contacted.
pub open spec fn native_step(
    state: AppStateView,
    endpoint: Endpoint,
    model: Seq<char>,
    headers: Seq<HeaderView>,
    body: Seq<u8>,
    screening: Option<ScreeningView>,
) -> NativeStepView {
    match screening {
        None => NativeStepView::Forward(native_forward(state, endpoint, headers, body)),
        Some(ScreeningView::Pass(_)) => NativeStepView::Forward(
            native_forward(state, endpoint, headers, body),
        ),
        Some(ScreeningView::Reject(refusal)) => NativeStepView::Respond(
            refusal_reply(endpoint, model, refusal),
        ),
        Some(ScreeningView::Classify(request)) => NativeStepView::Classify(request),
        Some(ScreeningView::Fail(failure)) => NativeStepView::Fail(
            internal_error(failure_message(failure)),
        ),
    }
}

/// Builds the request that relays a typed payload: `body` is the payload as
/// the caller encoded it.
pub fn proxy_forward_json(
    base_url: &str,
    path: &str,
    method: &str,
    headers: &Vec<Header>,
    body: &Vec<u8>,
) -> (r: OutboundRequest)
    ensures
        r@ == forwarded(
            base_url@,
            ProxyEnvelopeView {
                method: method@,
                path_and_query: path@,
                headers: headers_view(headers@),
                body: body@,
            },
        ),
{
    let mut copied: Vec<Header> = Vec::new();
    let mut k: usize = 0;
    while k < headers.len()
        invariant
            k <= headers.len(),
            copied.len() == k,
            forall|j: int| 0 <= j < k ==> (#[trigger] copied@[j])@ == headers@[j]@,
        decreases headers.len() - k,
    {
        copied.push(headers[k].duplicate());
        k += 1;
    }
    assert(headers_view(copied@) =~= headers_view(headers@));
    forward(
        base_url,
        ProxyEnvelope {
            method: method.to_owned(),
            path_and_query: path.to_owned(),
            headers: copied,
            body: body.clone(),
        },
    )
}

/// The answer that tells the caller of a native endpoint of a refusal.
pub fn blocked_reply(endpoint: Endpoint, model: &str, refusal: &str) -> (r: NativeReply)
    ensures
        r@ == refusal_reply(endpoint, model@, refusal@),
{
    match endpoint {
        Endpoint::Chat => NativeReply::Chat(
            OllamaChatReply {
                model: model.to_owned(),
                created_at: "2026-02-09T00:00:00Z".to_owned(),
                message: security_alert_message(refusal),
                done: true,
            },
        ),
        Endpoint::Generate => NativeReply::Generate(
            OllamaGenerateReply {
                model: model.to_owned(),
                created_at: "2026-02-09T00:00:00Z".to_owned(),
                response: security_alert(refusal),
                done: true,
            },
        ),
    }
}

/// Decides the step that follows a screening.
pub fn native_step_after(
    state: &AppState,
    endpoint: Endpoint,
    model: &str,
    headers: &Vec<Header>,
    body: &Vec<u8>,
    screening: Option<Screening>,
) -> (r: NativeStep)
    ensures
        r@ == native_step(
            state@,
            endpoint,
            model@,
            headers_view(headers@),
            body@,
            screening_view(screening),
        ),
{
    match screening {
        None => NativeStep::Forward(
            proxy_forward_json(state.ollama_url.as_str(), endpoint.path(), "POST", headers, body),
        ),
        Some(Screening::Pass(_)) => NativeStep::Forward(
            proxy_forward_json(state.ollama_url.as_str(), endpoint.path(), "POST", headers, body),
        ),
        Some(Screening::Reject(refusal)) => NativeStep::Respond(
            blocked_reply(endpoint, model, refusal.as_str()),
        ),
        Some(Screening::Classify(request)) => NativeStep::Classify(request),
        Some(Screening::Fail(error)) => NativeStep::Fail(ErrorReply::internal(error.message())),
    }
}

/// Handles a request to the backend's chat endpoint: screens the last user
/// message and decides the first step. `body` is the payload as the caller
/// encoded it for the backend.
pub fn ollama_chat_handler(
    state: &AppState,
    headers: &Vec<Header>,
    payload: &OllamaChatRequest,
    body: &Vec<u8>,
) -> (r: NativeStep)
    ensures
        r@ == native_step(
            state@,
            Endpoint::Chat,
            payload@.model,
            headers_view(headers@),
            body@,
            started(guard_config(state@), policy_text(payload@.messages)),
        ),
{
    let text = find_policy_text(&payload.messages);
    let screening = state.screen(text);
    native_step_after(state, Endpoint::Chat, payload.model.as_str(), headers, body, screening)
}

/// Continues a request to the backend's chat endpoint with the guard model's
/// answer.
pub fn ollama_chat_classified(
    state: &AppState,
    headers: &Vec<Header>,
    payload: &OllamaChatRequest,
    body: &Vec<u8>,
    outcome: ClassifierOutcome,
) -> (r: NativeStep)
    ensures
        r@ == native_step(
            state@,
            Endpoint::Chat,
            payload@.model,
            headers_view(headers@),
            body@,
            finished(guard_config(state@), policy_text(payload@.messages), outcome@),
        ),
{
    let text = find_policy_text(&payload.messages);
    let screening = state.screen_classified(text, outcome);
    native_step_after(state, Endpoint::Chat, payload.model.as_str(), headers, body, screening)
}

/// Handles a request to the backend's generation endpoint: screens the
/// prompt and decides the first step. `body` is the payload as the caller
/// encoded it for the backend.
pub fn ollama_generate_handler(
    state: &AppState,
    headers: &Vec<Header>,
    payload: &OllamaGenerateRequest,
    body: &Vec<u8>,
) -> (r: NativeStep)
    ensures
        r@ == native_step(
            state@,
            Endpoint::Generate,
            payload@.model,
            headers_view(headers@),
            body@,
            started(guard_config(state@), Some(payload@.prompt)),
        ),
{
    let screening = state.screen(Some(payload.prompt.as_str()));
    native_step_after(state, Endpoint::Generate, payload.model.as_str(), headers, body, screening)
}

/// Continues a request to the backend's generation endpoint with the guard
/// model's answer.
pub fn ollama_generate_classified(
    state: &AppState,
    headers: &Vec<Header>,
    payload: &OllamaGenerateRequest,
    body: &Vec<u8>,
    outcome: ClassifierOutcome,
) -> (r: NativeStep)
    ensures
        r@ == native_step(
            state@,
            Endpoint::Generate,
            payload@.model,
            headers_view(headers@),
            body@,
            finished(guard_config(state@), Some(payload@.prompt), outcome@),
        ),
{
    let screening = state.screen_classified(Some(payload.prompt.as_str()), outcome);
    native_step_after(state, Endpoint::Generate, payload.model.as_str(), headers, body, screening)
}

/// What came back from the backend for a forwarded request: its response, or
/// the description of a transport failure.
pub open spec fn outcome_view(outcome: Result<ProxyResponse, String>) -> Result<
    ProxyResponseView,
    Seq<char>,
> {
    match outcome {
        Ok(response) => Ok(response@),
        Err(detail) => Err(detail@),
    }
}

/// The mathematical content of what the caller gets.
pub open spec fn answer_view(answer: Result<ProxyResponse, ErrorReply>) -> Result<
    ProxyResponseView,
    ErrorReplyView,
> {
    match answer {
        Ok(response) => Ok(response@),
        Err(error) => Err(error@),
    }
}

/// What the caller of a native endpoint gets for a forwarded request: the
/// backend's response with its body redacted, or an internal error where the
/// backend could not be reached.
pub open spec fn native_answer(outcome: Result<ProxyResponseView, Seq<char>>) -> Result<
    ProxyResponseView,
    ErrorReplyView,
> {
    match outcome {
        Ok(response) => Ok(relayed_redacted(response)),
        Err(detail) => Err(internal_error(detail)),
    }
}

/// What the caller of the fallback gets: the backend's response as it is, or
/// an internal error where the backend could not be reached.
pub open spec fn fallback_answer(outcome: Result<ProxyResponseView, Seq<char>>) -> Result<
    ProxyResponseView,
    ErrorReplyView,
> {
    match outcome {
        Ok(response) => Ok(relayed(response)),
        Err(detail) => Err(internal_error(detail)),
    }
}

/// Finishes a request to a native endpoint with what came back from the
/// backend.
pub fn native_response(outcome: Result<ProxyResponse, String>) -> (r: Result<ProxyResponse, ErrorReply>)
    ensures
        answer_view(r) == native_answer(outcome_view(outcome)),
{
    match outcome {
        Ok(response) => Ok(relay_redacted(response)),
        Err(detail) => Err(ErrorReply::internal(detail)),
    }
}

/// Handles a request to any other path: builds the request that relays it to
/// the backend. No policy is applied.
pub fn proxy_fallback_handler(state: &AppState, envelope: ProxyEnvelope) -> (r: OutboundRequest)
    ensures
        r@ == forwarded(state@.ollama_url, envelope@),
{
    forward(state.ollama_url.as_str(), envelope)
}

/// Finishes a fallback request with what came back from the backend. Nothing
/// is redacted.
pub fn fallback_response(outcome: Result<ProxyResponse, String>) -> (r: Result<
    ProxyResponse,
    ErrorReply,
>)
    ensures
        answer_view(r) == fallback_answer(outcome_view(outcome)),
{
    match outcome {
        Ok(response) => Ok(relay(response)),
        Err(detail) => Err(ErrorReply::internal(detail)),
    }
}

/// A blocked request never reaches the backend: when the policy engine
/// decides to block the policy text of a request to a native endpoint, at
/// once or after asking the guard model, the step that follows is an answer
/// to the caller and not a forwarded request.
pub proof fn lemma_block_prevents_forwarding(
    state: AppStateView,
    endpoint: Endpoint,
    model: Seq<char>,
    headers: Seq<HeaderView>,
    body: Seq<u8>,
    text: Seq<char>,
    outcome: ClassifierOutcomeView,
)
    ensures
        first_step(guard_config(state), text) matches PolicyStepView::Decided(Verdict::Block(_))
            ==> native_step(
            state,
            endpoint,
            model,
            headers,
            body,
            started(guard_config(state), Some(text)),
        ) is Respond,
        conclusion(guard_config(state), outcome) matches Ok(Verdict::Block(_)) ==> native_step(
            state,
            endpoint,
            model,
            headers,
            body,
            finished(guard_config(state), Some(text), outcome),
        ) is Respond,
{
}

/// The gateway fails closed: when the guard model cannot be asked, or its
/// answer cannot be read, the request is not forwarded.
pub proof fn lemma_classifier_failure_prevents_forwarding(
    state: AppStateView,
    endpoint: Endpoint,
    model: Seq<char>,
    headers: Seq<HeaderView>,
    body: Seq<u8>,
    text: Seq<char>,
    outcome: ClassifierOutcomeView,
)
    ensures
        conclusion(guard_config(state), outcome) is Err ==> !(native_step(
            state,
            endpoint,
            model,
            headers,
            body,
            finished(guard_config(state), Some(text), outcome),
        ) is Forward),
{
}

} // verus!
