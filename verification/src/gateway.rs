//! The OpenAI-compatible surface: one step function for each point at which
//! the gateway decides what to do next. The caller performs the network calls
//! in between and comes back with what they returned.

use vstd::prelude::*;
use crate::api_types::{
    completion_envelope, messages_view, model_list, usage_of, ChatCompletionRequest,
    ChatCompletionRequestView, ChatCompletionResponse, ChatCompletionResponseView,
    ListModelsResponse, ListModelsResponseView, Message, MessageView, Usage,
};
use crate::backend::{
    OllamaChatRequest, OllamaChatRequestView, OllamaChatResponse, OllamaChatResponseView,
};
use crate::interceptor::{
    alert_message, find_policy_text, is_user, lemma_policy_text_is_last_user, policy_text,
    security_alert_message,
};
use crate::ollama_client::{TagsOutcome, TagsOutcomeView};
use crate::middleware::{
    screening_end, screening_start, InputValidationMiddleware, Screening, ScreeningView,
};
use crate::prompt_guard::{
    conclusion, failure_message, first_step, mode_setting, sensitivity_setting,
    ClassifierOutcome, ClassifierOutcomeView, ClassifierRequest, ClassifierRequestView,
    GuardConfig, PolicyStepView, PromptGuardClient, Sensitivity, ValidationMode, Verdict,
};
use crate::redaction::{apply_filters, redacted};
use crate::status::{code_digits, lemma_status_line_holds_code, status_line, HttpStatus};
use crate::text::{
    has_substring, join2, join3, lemma_middle_is_substring, lemma_substring_transitive,
    slice_text, text_of,
};

verus! {

/// Whether a character is a lower-case hexadecimal digit.
pub open spec fn is_lower_hex(c: char) -> bool {
    ('0' <= c && c <= '9') || ('a' <= c && c <= 'f')
}

/// Where the hyphens of a printed identifier stand.
pub open spec fn is_hyphen_position(i: int) -> bool {
    i == 8 || i == 13 || i == 18 || i == 23
}

/// Whether a text has the shape of a printed identifier: 36 characters,
/// hyphens after the groups of 8, 4, 4 and 4, and lower-case hexadecimal
/// digits elsewhere.
pub open spec fn is_uuid_text(s: Seq<char>) -> bool {
    &&& s.len() == 36
    &&& forall|i: int|
        0 <= i < 36 ==> if is_hyphen_position(i) {
            #[trigger] s[i] == '-'
        } else {
            is_lower_hex(s[i])
        }
}

/// The identifier whose digits are all zero.
pub open spec fn nil_uuid_text() -> Seq<char> {
    Seq::new(
        36,
        |i: int|
            if is_hyphen_position(i) {
                '-'
            } else {
                '0'
            },
    )
}

/// Calls `uuid::Uuid::new_v4` and formats the identifier with its `Display`
/// impl, which writes the hyphenated lower-case form. The identifier is
/// random: only its shape is promised. The call fails only where the
/// operating system has no randomness to give.
#[verifier::external_body]
fn fresh_uuid() -> (r: String)
    ensures
        is_uuid_text(r@),
{
    uuid::Uuid::new_v4().to_string()
}

/// The gateway's configuration, fixed when the process starts.
#[derive(Clone, Debug, PartialEq, Eq)]
pub struct AppState {
    /// The backend's base URL.
    pub ollama_url: String,
    pub validation_mode: ValidationMode,
    pub sensitivity: Sensitivity,
    /// The name of the guard model that the remote strategy asks.
    pub guard_model: String,
}

/// The mathematical content of an [`AppState`].
pub struct AppStateView {
    pub ollama_url: Seq<char>,
    pub validation_mode: ValidationMode,
    pub sensitivity: Sensitivity,
    pub guard_model: Seq<char>,
}

impl View for AppState {
    type V = AppStateView;

    open spec fn view(&self) -> AppStateView {
        AppStateView {
            ollama_url: self.ollama_url@,
            validation_mode: self.validation_mode,
            sensitivity: self.sensitivity,
            guard_model: self.guard_model@,
        }
    }
}

/// The policy engine's configuration under `state`.
pub open spec fn guard_config(state: AppStateView) -> GuardConfig {
    GuardConfig {
        base_url: state.ollama_url,
        mode: state.validation_mode,
        sensitivity: state.sensitivity,
        model_name: state.guard_model,
    }
}

/// The configuration that the settings give. A setting that is missing takes
/// its default: the backend at `http://ollama:11434`, local validation,
/// medium sensitivity, and the guard model `granite3-guardian:latest`.
pub open spec fn configured(
    ollama_url: Option<Seq<char>>,
    validation_mode: Option<Seq<char>>,
    sensitivity: Option<Seq<char>>,
    guard_model: Option<Seq<char>>,
) -> AppStateView {
    AppStateView {
        ollama_url: match ollama_url {
            Some(url) => url,
            None => "http://ollama:11434"@,
        },
        validation_mode: mode_setting(validation_mode),
        sensitivity: sensitivity_setting(sensitivity),
        guard_model: match guard_model {
            Some(name) => name,
            None => "granite3-guardian:latest"@,
        },
    }
}

impl AppState {
    /// Builds the configuration from the settings that the environment gives.
    pub fn from_settings(
        ollama_url: Option<&str>,
        validation_mode: Option<&str>,
        sensitivity: Option<&str>,
        guard_model: Option<&str>,
    ) -> (r: Self)
        ensures
            r@ == configured(
                slice_text(ollama_url),
                slice_text(validation_mode),
                slice_text(sensitivity),
                slice_text(guard_model),
            ),
    {
        AppState {
            ollama_url: match ollama_url {
                Some(url) => url.to_owned(),
                None => "http://ollama:11434".to_owned(),
            },
            validation_mode: ValidationMode::from_setting(validation_mode),
            sensitivity: Sensitivity::from_setting(sensitivity),
            guard_model: match guard_model {
                Some(name) => name.to_owned(),
                None => "granite3-guardian:latest".to_owned(),
            },
        }
    }

    /// The middleware that screens prompts under this configuration.
    pub fn middleware(&self) -> (r: InputValidationMiddleware)
        ensures
            r.config() == guard_config(self@),
    {
        InputValidationMiddleware::new(
            PromptGuardClient::new(
                self.ollama_url.as_str(),
                self.validation_mode,
                self.sensitivity,
                self.guard_model.as_str(),
            ),
        )
    }

    /// Starts screening the policy text of a request, if it has one.
    pub fn screen(&self, text: Option<&str>) -> (r: Option<Screening>)
        ensures
            screening_view(r) == started(guard_config(self@), slice_text(text)),
    {
        match text {
            Some(prompt) => Some(self.middleware().process(prompt)),
            None => None,
        }
    }

    /// Finishes screening the policy text of a request, if it has one, with
    /// the guard model's answer.
    pub fn screen_classified(&self, text: Option<&str>, outcome: ClassifierOutcome) -> (r: Option<
        Screening,
    >)
        ensures
            screening_view(r) == finished(
                guard_config(self@),
                slice_text(text),
                outcome@,
            ),
    {
        match text {
            Some(prompt) => Some(self.middleware().resume(prompt, outcome)),
            None => None,
        }
    }
}

/// The mathematical content of an optional screening.
pub open spec fn screening_view(s: Option<Screening>) -> Option<ScreeningView> {
    match s {
        Some(screening) => Some(screening@),
        None => None,
    }
}

/// The screening that a request starts with: none where it has no policy
/// text, which lets it through unjudged.
pub open spec fn started(cfg: GuardConfig, text: Option<Seq<char>>) -> Option<ScreeningView> {
    match text {
        Some(prompt) => Some(screening_start(cfg, prompt)),
        None => None,
    }
}

/// The screening of a request once the guard model has answered.
pub open spec fn finished(
    cfg: GuardConfig,
    text: Option<Seq<char>>,
    outcome: ClassifierOutcomeView,
) -> Option<ScreeningView> {
    match text {
        Some(prompt) => Some(screening_end(cfg, prompt, outcome)),
        None => None,
    }
}

/// An error answer: a status and a plain-text message.
#[derive(Clone, Debug, PartialEq, Eq)]
pub struct ErrorReply {
    pub status: HttpStatus,
    pub message: String,
}

/// The mathematical content of an [`ErrorReply`].
pub struct ErrorReplyView {
    pub status: u16,
    pub message: Seq<char>,
}

impl View for ErrorReply {
    type V = ErrorReplyView;

    open spec fn view(&self) -> ErrorReplyView {
        ErrorReplyView { status: self.status@, message: self.message@ }
    }
}

/// The internal-error answer with `message`.
pub open spec fn internal_error(message: Seq<char>) -> ErrorReplyView {
    ErrorReplyView { status: 500, message }
}

impl ErrorReply {
    /// The internal-error answer with `message`.
    pub fn internal(message: String) -> (r: Self)
        ensures
            r@ == internal_error(message@),
    {
        ErrorReply { status: HttpStatus::internal_server_error(), message }
    }
}

/// A call of the backend's chat endpoint.
#[derive(Clone, Debug, PartialEq, Eq)]
pub struct BackendChatCall {
    /// Where to POST the request.
    pub url: String,
    pub request: OllamaChatRequest,
}

/// The mathematical content of a [`BackendChatCall`].
pub struct BackendChatCallView {
    pub url: Seq<char>,
    pub request: OllamaChatRequestView,
}

impl View for BackendChatCall {
    type V = BackendChatCallView;

    open spec fn view(&self) -> BackendChatCallView {
        BackendChatCallView { url: self.url@, request: self.request@ }
    }
}

/// What the gateway does next for a chat-completion request.
#[derive(Clone, Debug, PartialEq, Eq)]
pub enum CompletionStep {
    /// Ask the guard model, then come back with its answer.
    Classify(ClassifierRequest),
    /// Call the backend, then come back with its answer.
    CallBackend(BackendChatCall),
    /// Answer the caller; the backend is not contacted.
    Respond(ChatCompletionResponse),
    /// Answer the caller with an error; the backend is not contacted.
    Fail(ErrorReply),
}

/// The mathematical content of a [`CompletionStep`].
pub enum CompletionStepView {
    Classify(ClassifierRequestView),
    CallBackend(BackendChatCallView),
    Respond(ChatCompletionResponseView),
    Fail(ErrorReplyView),
}

impl View for CompletionStep {
    type V = CompletionStepView;

    open spec fn view(&self) -> CompletionStepView {
        match self {
            CompletionStep::Classify(request) => CompletionStepView::Classify(request@),
            CompletionStep::CallBackend(call) => CompletionStepView::CallBackend(call@),
            CompletionStep::Respond(response) => CompletionStepView::Respond(response@),
            CompletionStep::Fail(error) => CompletionStepView::Fail(error@),
        }
    }
}

/// What came back from the backend's chat endpoint.
#[derive(Debug, PartialEq, Eq)]
pub enum ChatBackendOutcome {
    /// The request got no answer; the text describes the transport failure.
    Unreachable(String),
    /// The backend answered. `text` is the body as text, where it could be
    /// read; `decoded` is the body decoded, or a description of why it could
    /// not be.
    Answered { status: HttpStatus, text: Option<String>, decoded: Result<OllamaChatResponse, String> },
}

/// The mathematical content of a [`ChatBackendOutcome`].
pub enum ChatBackendOutcomeView {
    Unreachable(Seq<char>),
    Answered {
        status: u16,
        text: Option<Seq<char>>,
        decoded: Result<OllamaChatResponseView, Seq<char>>,
    },
}

impl View for ChatBackendOutcome {
    type V = ChatBackendOutcomeView;

    open spec fn view(&self) -> ChatBackendOutcomeView {
        match self {
            ChatBackendOutcome::Unreachable(detail) => ChatBackendOutcomeView::Unreachable(detail@),
            ChatBackendOutcome::Answered { status, text, decoded } => ChatBackendOutcomeView::Answered {
                status: status@,
                text: text_of(*text),
                decoded: match decoded {
                    Ok(response) => Ok(response@),
                    Err(detail) => Err(detail@),
                },
            },
        }
    }
}

/// The identifier of a completion made for the random identifier `uuid`.
pub open spec fn completion_id(uuid: Seq<char>) -> Seq<char> {
    "chatcmpl-"@ + uuid
}

/// The backend call that serves `payload`: the same model and messages, not
/// streamed.
pub open spec fn backend_call(state: AppStateView, payload: ChatCompletionRequestView) -> BackendChatCallView {
    BackendChatCallView {
        url: state.ollama_url + "/api/chat"@,
        request: OllamaChatRequestView {
            model: payload.model,
            messages: payload.messages,
            stream: false,
        },
    }
}

/// The completion that tells the caller of a refusal.
pub open spec fn refusal_completion(
    id: Seq<char>,
    created: u64,
    model: Seq<char>,
    refusal: Seq<char>,
) -> ChatCompletionResponseView {
    completion_envelope(id, created, model, alert_message(refusal), None)
}

/// The step that follows the screening of a chat-completion request. A
/// request without policy text, or whose text passes, goes to the backend. A
/// refused one is answered in place, and the backend is not contacted.
pub open spec fn completion_step(
    state: AppStateView,
    payload: ChatCompletionRequestView,
    created: u64,
    id: Seq<char>,
    screening: Option<ScreeningView>,
) -> CompletionStepView {
    match screening {
        None => CompletionStepView::CallBackend(backend_call(state, payload)),
        Some(ScreeningView::Pass(_)) => CompletionStepView::CallBackend(backend_call(state, payload)),
        Some(ScreeningView::Reject(refusal)) => CompletionStepView::Respond(
            refusal_completion(id, created, payload.model, refusal),
        ),
        Some(ScreeningView::Classify(request)) => CompletionStepView::Classify(request),
        Some(ScreeningView::Fail(failure)) => CompletionStepView::Fail(
            internal_error(failure_message(failure)),
        ),
    }
}

/// The completion made from the backend's answer: the assistant's role as the
/// backend gave it, the content redacted, and the usage where the backend
/// counted.
pub open spec fn completion_of(
    id: Seq<char>,
    created: u64,
    model: Seq<char>,
    backend: OllamaChatResponseView,
) -> ChatCompletionResponseView {
    completion_envelope(
        id,
        created,
        model,
        MessageView { role: backend.message.role, content: redacted(backend.message.content) },
        usage_of(backend.prompt_eval_count, backend.eval_count),
    )
}

/// The message of the error that a refusing backend gets: the backend's
/// status, then what its body said, where that could be read.
pub open spec fn backend_error_message(status: u16, text: Option<Seq<char>>) -> Seq<char> {
    "Ollama error: "@ + status_line(status) + ": "@ + match text {
        Some(body) => body,
        None => "Unknown error"@,
    }
}

/// What the caller gets once the backend has been called. A status outside
/// 200..=299 is an internal error whose message holds that status; so is an
/// answer that cannot be decoded, and a backend that cannot be reached.
pub open spec fn completion_result(
    id: Seq<char>,
    created: u64,
    model: Seq<char>,
    outcome: ChatBackendOutcomeView,
) -> Result<ChatCompletionResponseView, ErrorReplyView> {
    match outcome {
        ChatBackendOutcomeView::Unreachable(detail) => Err(internal_error(detail)),
        ChatBackendOutcomeView::Answered { status, text, decoded } => if !(200 <= status < 300) {
            Err(internal_error(backend_error_message(status, text)))
        } else {
            match decoded {
                Err(detail) => Err(internal_error(detail)),
                Ok(backend) => Ok(completion_of(id, created, model, backend)),
            }
        },
    }
}

/// The mathematical content of a completion result.
pub open spec fn completion_result_view(r: Result<ChatCompletionResponse, ErrorReply>) -> Result<
    ChatCompletionResponseView,
    ErrorReplyView,
> {
    match r {
        Ok(response) => Ok(response@),
        Err(error) => Err(error@),
    }
}

/// Builds the backend call that serves `payload`.
pub fn backend_chat_call(state: &AppState, payload: &ChatCompletionRequest) -> (r: BackendChatCall)
    ensures
        r@ == backend_call(state@, payload@),
{
    let messages = copy_messages(&payload.messages);
    BackendChatCall {
        url: join2(state.ollama_url.as_str(), "/api/chat"),
        request: OllamaChatRequest { model: payload.model.clone(), messages, stream: false },
    }
}

/// A copy of a conversation.
pub fn copy_messages(messages: &Vec<Message>) -> (r: Vec<Message>)
    ensures
        messages_view(r@) == messages_view(messages@),
{
    let mut out: Vec<Message> = Vec::new();
    let mut k: usize = 0;
    while k < messages.len()
        invariant
            k <= messages.len(),
            out.len() == k,
            forall|j: int| 0 <= j < k ==> (#[trigger] out@[j])@ == messages@[j]@,
        decreases messages.len() - k,
    {
        out.push(
            Message { role: messages[k].role.clone(), content: messages[k].content.clone() },
        );
        k += 1;
    }
    assert(messages_view(out@) =~= messages_view(messages@));
    out
}

/// The completion that tells the caller of a refusal, under the identifier
/// made from `uuid`.
pub fn blocked_completion(uuid: &str, created: u64, model: &str, refusal: &str) -> (r:
    ChatCompletionResponse)
    ensures
        r@ == refusal_completion(completion_id(uuid@), created, model@, refusal@),
{
    ChatCompletionResponse::single(
        join2("chatcmpl-", uuid),
        created,
        model.to_owned(),
        security_alert_message(refusal),
        None,
    )
}

/// The completion made from the backend's answer, under the identifier made
/// from `uuid`.
pub fn assemble_completion(uuid: &str, created: u64, model: &str, backend: OllamaChatResponse) -> (r:
    ChatCompletionResponse)
    ensures
        r@ == completion_of(completion_id(uuid@), created, model@, backend@),
{
    let usage = Usage::from_counts(backend.prompt_eval_count, backend.eval_count);
    let content = apply_filters(backend.message.content);
    ChatCompletionResponse::single(
        join2("chatcmpl-", uuid),
        created,
        model.to_owned(),
        Message { role: backend.message.role, content },
        usage,
    )
}

/// Decides the step that follows a screening. A refusal is answered under a
/// fresh random identifier.
fn step_after(
    state: &AppState,
    payload: &ChatCompletionRequest,
    created: u64,
    screening: Option<Screening>,
) -> (r: CompletionStep)
    ensures
        exists|uuid: Seq<char>|
            is_uuid_text(uuid) && r@ == completion_step(
                state@,
                payload@,
                created,
                #[trigger] completion_id(uuid),
                screening_view(screening),
            ),
{
    let ghost mut drawn: Seq<char> = nil_uuid_text();
    let step = match screening {
        None => CompletionStep::CallBackend(backend_chat_call(state, payload)),
        Some(Screening::Pass(_)) => CompletionStep::CallBackend(backend_chat_call(state, payload)),
        Some(Screening::Reject(refusal)) => {
            let uuid = fresh_uuid();
            proof {
                drawn = uuid@;
            }
            CompletionStep::Respond(
                blocked_completion(
                    uuid.as_str(),
                    created,
                    payload.model.as_str(),
                    refusal.as_str(),
                ),
            )
        },
        Some(Screening::Classify(request)) => CompletionStep::Classify(request),
        Some(Screening::Fail(error)) => CompletionStep::Fail(ErrorReply::internal(error.message())),
    };
    assert(is_uuid_text(drawn) && step@ == completion_step(
        state@,
        payload@,
        created,
        completion_id(drawn),
        screening_view(screening),
    ));
    step
}

/// Handles a chat-completion request: screens the last user message and
/// decides the first step. `created` is the current time in seconds since the
/// epoch, for the answer that a refusal gets.
pub fn chat_completions_handler(state: &AppState, payload: &ChatCompletionRequest, created: u64) -> (r:
    CompletionStep)
    ensures
        exists|uuid: Seq<char>|
            is_uuid_text(uuid) && r@ == completion_step(
                state@,
                payload@,
                created,
                #[trigger] completion_id(uuid),
                started(guard_config(state@), policy_text(payload@.messages)),
            ),
{
    let text = find_policy_text(&payload.messages);
    let screening = state.screen(text);
    step_after(state, payload, created, screening)
}

/// Continues a chat-completion request with the guard model's answer to the
/// request that [`chat_completions_handler`] handed out.
pub fn chat_completions_classified(
    state: &AppState,
    payload: &ChatCompletionRequest,
    outcome: ClassifierOutcome,
    created: u64,
) -> (r: CompletionStep)
    ensures
        exists|uuid: Seq<char>|
            is_uuid_text(uuid) && r@ == completion_step(
                state@,
                payload@,
                created,
                #[trigger] completion_id(uuid),
                finished(guard_config(state@), policy_text(payload@.messages), outcome@),
            ),
{
    let text = find_policy_text(&payload.messages);
    let screening = state.screen_classified(text, outcome);
    step_after(state, payload, created, screening)
}

/// Finishes a chat-completion request with what came back from the backend,
/// under the identifier made from `uuid`.
pub fn completion_from(uuid: &str, created: u64, model: &str, outcome: ChatBackendOutcome) -> (r:
    Result<ChatCompletionResponse, ErrorReply>)
    ensures
        completion_result_view(r) == completion_result(
            completion_id(uuid@),
            created,
            model@,
            outcome@,
        ),
{
    match outcome {
        ChatBackendOutcome::Unreachable(detail) => Err(ErrorReply::internal(detail)),
        ChatBackendOutcome::Answered { status, text, decoded } => {
            if !status.is_success() {
                let line = status.describe();
                let mut message = join3("Ollama error: ", line.as_str(), ": ");
                match text {
                    Some(body) => message.append(body.as_str()),
                    None => message.append("Unknown error"),
                }
                Err(ErrorReply::internal(message))
            } else {
                match decoded {
                    Err(detail) => Err(ErrorReply::internal(detail)),
                    Ok(backend) => Ok(assemble_completion(uuid, created, model, backend)),
                }
            }
        },
    }
}

/// Finishes a chat-completion request with what came back from the backend.
/// The answer gets a fresh random identifier.
pub fn chat_completions_response(model: &str, outcome: ChatBackendOutcome, created: u64) -> (r:
    Result<ChatCompletionResponse, ErrorReply>)
    ensures
        exists|uuid: Seq<char>|
            is_uuid_text(uuid) && completion_result_view(r) == completion_result(
                #[trigger] completion_id(uuid),
                created,
                model@,
                outcome@,
            ),
{
    let uuid = fresh_uuid();
    let r = completion_from(uuid.as_str(), created, model, outcome);
    assert(is_uuid_text(uuid@) && completion_result_view(r) == completion_result(
        completion_id(uuid@),
        created,
        model@,
        outcome@,
    ));
    r
}

/// Where the backend lists its models.
pub open spec fn models_url(state: AppStateView) -> Seq<char> {
    state.ollama_url + "/api/tags"@
}

/// The model list made from what came back from the backend's listing. A
/// status outside 200..=299 is an internal error whose message holds that
/// status; so is a listing that cannot be decoded, and a backend that cannot
/// be reached.
pub open spec fn models_result(outcome: TagsOutcomeView) -> Result<
    ListModelsResponseView,
    ErrorReplyView,
> {
    match outcome {
        TagsOutcomeView::Unreachable(detail) => Err(internal_error(detail)),
        TagsOutcomeView::Answered { status, names } => if !(200 <= status < 300) {
            Err(internal_error("Failed to list models: "@ + status_line(status)))
        } else {
            match names {
                Err(detail) => Err(internal_error(detail)),
                Ok(list) => Ok(model_list(list)),
            }
        },
    }
}

/// Handles a request for the model list: says where the backend lists its
/// models.
pub fn list_models_handler(state: &AppState) -> (r: String)
    ensures
        r@ == models_url(state@),
{
    join2(state.ollama_url.as_str(), "/api/tags")
}

/// The mathematical content of the answer to a request for the model list.
pub open spec fn models_view(r: Result<ListModelsResponse, ErrorReply>) -> Result<
    ListModelsResponseView,
    ErrorReplyView,
> {
    match r {
        Ok(list) => Ok(list@),
        Err(error) => Err(error@),
    }
}

/// Finishes a request for the model list with what came back from the
/// backend's listing.
pub fn list_models_response(outcome: TagsOutcome) -> (r: Result<ListModelsResponse, ErrorReply>)
    ensures
        models_view(r) == models_result(outcome@),
{
    match outcome {
        TagsOutcome::Unreachable(detail) => Err(ErrorReply::internal(detail)),
        TagsOutcome::Answered { status, names } => {
            if !status.is_success() {
                let line = status.describe();
                Err(ErrorReply::internal(join2("Failed to list models: ", line.as_str())))
            } else {
                match names {
                    Err(detail) => Err(ErrorReply::internal(detail)),
                    Ok(list) => Ok(ListModelsResponse::from_names(list)),
                }
            }
        },
    }
}

/// A backend error names the backend's status: when the backend refuses a
/// chat call, the caller gets an internal error whose message holds the
/// backend's status line, and with it the three digits of the status.
pub proof fn lemma_backend_error_embeds_status(
    id: Seq<char>,
    created: u64,
    model: Seq<char>,
    status: u16,
    text: Option<Seq<char>>,
    decoded: Result<OllamaChatResponseView, Seq<char>>,
)
    requires
        !(200 <= status < 300),
    ensures
        completion_result(
            id,
            created,
            model,
            ChatBackendOutcomeView::Answered { status, text, decoded },
        ) matches Err(error) && error.status == 500 && has_substring(
            error.message,
            status_line(status),
        ) && has_substring(error.message, code_digits(status)),
{
    let tail = ": "@ + match text {
        Some(body) => body,
        None => "Unknown error"@,
    };
    let message = backend_error_message(status, text);
    assert(message =~= "Ollama error: "@ + status_line(status) + tail);
    lemma_middle_is_substring("Ollama error: "@, status_line(status), tail);
    lemma_status_line_holds_code(status);
    lemma_substring_transitive(message, status_line(status), code_digits(status));
}

/// A refused listing names the backend's status in the same way.
pub proof fn lemma_listing_error_embeds_status(
    status: u16,
    names: Result<Seq<Seq<char>>, Seq<char>>,
)
    requires
        !(200 <= status < 300),
    ensures
        models_result(TagsOutcomeView::Answered { status, names }) matches Err(error)
            && error.status == 500 && has_substring(error.message, code_digits(status)),
{
    let message = "Failed to list models: "@ + status_line(status);
    assert(message =~= "Failed to list models: "@ + status_line(status) + Seq::<char>::empty());
    lemma_middle_is_substring("Failed to list models: "@, status_line(status), Seq::empty());
    lemma_status_line_holds_code(status);
    lemma_substring_transitive(message, status_line(status), code_digits(status));
}

/// A blocked request never reaches the backend: when the policy engine
/// decides to block the policy text of a chat-completion request, at once or
/// after asking the guard model, the step that follows is an answer to the
/// caller and not a call of the backend.
pub proof fn lemma_block_prevents_backend_call(
    state: AppStateView,
    payload: ChatCompletionRequestView,
    created: u64,
    id: Seq<char>,
    outcome: ClassifierOutcomeView,
)
    ensures
        (policy_text(payload.messages) matches Some(text) && first_step(guard_config(state), text)
            matches PolicyStepView::Decided(Verdict::Block(_))) ==> completion_step(
            state,
            payload,
            created,
            id,
            started(guard_config(state), policy_text(payload.messages)),
        ) is Respond,
        (policy_text(payload.messages) matches Some(text) && conclusion(
            guard_config(state),
            outcome,
        ) matches Ok(Verdict::Block(_))) ==> completion_step(
            state,
            payload,
            created,
            id,
            finished(guard_config(state), policy_text(payload.messages), outcome),
        ) is Respond,
{
}

/// A request without a user message is not judged: it goes to the backend
/// whatever the configuration and whatever its other messages say.
pub proof fn lemma_no_user_message_no_policy_check(
    state: AppStateView,
    payload: ChatCompletionRequestView,
    created: u64,
    id: Seq<char>,
)
    requires
        forall|i: int|
            0 <= i < payload.messages.len() ==> !is_user(
                #[trigger] payload.messages[i],
            ),
    ensures
        completion_step(
            state,
            payload,
            created,
            id,
            started(guard_config(state), policy_text(payload.messages)),
        ) == CompletionStepView::CallBackend(backend_call(state, payload)),
{
    lemma_policy_text_is_last_user(payload.messages);
}

/// The local strategy performs no network traffic: in local mode the
/// screening of a request never asks the guard model.
pub proof fn lemma_local_mode_never_classifies(cfg: GuardConfig, text: Option<Seq<char>>)
    requires
        cfg.mode == ValidationMode::Local,
    ensures
        !(started(cfg, text) matches Some(ScreeningView::Classify(_))),
{
}

/// The gateway fails closed: when the guard model cannot be asked, or its
/// answer cannot be read, the request does not reach the backend.
pub proof fn lemma_classifier_failure_fails_closed(
    state: AppStateView,
    payload: ChatCompletionRequestView,
    created: u64,
    id: Seq<char>,
    outcome: ClassifierOutcomeView,
)
    ensures
        (policy_text(payload.messages) is Some && conclusion(guard_config(state), outcome) is Err)
            ==> !(completion_step(
            state,
            payload,
            created,
            id,
            finished(guard_config(state), policy_text(payload.messages), outcome),
        ) is CallBackend),
{
}

} // verus!
