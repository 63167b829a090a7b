//! The backend's native request and response shapes.

use vstd::prelude::*;
use crate::api_types::{messages_view, Message, MessageView};

verus! {

/// A request for the backend's chat endpoint.
#[derive(Clone, Debug, PartialEq, Eq)]
pub struct OllamaChatRequest {
    pub model: String,
    pub messages: Vec<Message>,
    pub stream: bool,
}

/// The mathematical content of an [`OllamaChatRequest`].
pub struct OllamaChatRequestView {
    pub model: Seq<char>,
    pub messages: Seq<MessageView>,
    pub stream: bool,
}

impl View for OllamaChatRequest {
    type V = OllamaChatRequestView;

    open spec fn view(&self) -> OllamaChatRequestView {
        OllamaChatRequestView {
            model: self.model@,
            messages: messages_view(self.messages@),
            stream: self.stream,
        }
    }
}

/// What the backend's chat endpoint answers, as far as the gateway reads it.
#[derive(Clone, Debug, PartialEq, Eq)]
pub struct OllamaChatResponse {
    pub message: Message,
    pub prompt_eval_count: Option<u64>,
    pub eval_count: Option<u64>,
}

/// The mathematical content of an [`OllamaChatResponse`].
pub struct OllamaChatResponseView {
    pub message: MessageView,
    pub prompt_eval_count: Option<u64>,
    pub eval_count: Option<u64>,
}

impl View for OllamaChatResponse {
    type V = OllamaChatResponseView;

    open spec fn view(&self) -> OllamaChatResponseView {
        OllamaChatResponseView {
            message: self.message@,
            prompt_eval_count: self.prompt_eval_count,
            eval_count: self.eval_count,
        }
    }
}

/// A request for the backend's generation endpoint.
#[derive(Clone, Debug, PartialEq, Eq)]
pub struct OllamaGenerateRequest {
    pub model: String,
    pub prompt: String,
    pub stream: bool,
}

/// The mathematical content of an [`OllamaGenerateRequest`].
pub struct OllamaGenerateRequestView {
    pub model: Seq<char>,
    pub prompt: Seq<char>,
    pub stream: bool,
}

impl View for OllamaGenerateRequest {
    type V = OllamaGenerateRequestView;

    open spec fn view(&self) -> OllamaGenerateRequestView {
        OllamaGenerateRequestView { model: self.model@, prompt: self.prompt@, stream: self.stream }
    }
}

/// An answer in the shape of the backend's chat endpoint, made by the gateway.
#[derive(Clone, Debug, PartialEq, Eq)]
pub struct OllamaChatReply {
    pub model: String,
    pub created_at: String,
    pub message: Message,
    pub done: bool,
}

/// The mathematical content of an [`OllamaChatReply`].
pub struct OllamaChatReplyView {
    pub model: Seq<char>,
    pub created_at: Seq<char>,
    pub message: MessageView,
    pub done: bool,
}

impl View for OllamaChatReply {
    type V = OllamaChatReplyView;

    open spec fn view(&self) -> OllamaChatReplyView {
        OllamaChatReplyView {
            model: self.model@,
            created_at: self.created_at@,
            message: self.message@,
            done: self.done,
        }
    }
}

/// An answer in the shape of the backend's generation endpoint, made by the
/// gateway.
#[derive(Clone, Debug, PartialEq, Eq)]
pub struct OllamaGenerateReply {
    pub model: String,
    pub created_at: String,
    pub response: String,
    pub done: bool,
}

/// The mathematical content of an [`OllamaGenerateReply`].
pub struct OllamaGenerateReplyView {
    pub model: Seq<char>,
    pub created_at: Seq<char>,
    pub response: Seq<char>,
    pub done: bool,
}

impl View for OllamaGenerateReply {
    type V = OllamaGenerateReplyView;

    open spec fn view(&self) -> OllamaGenerateReplyView {
        OllamaGenerateReplyView {
            model: self.model@,
            created_at: self.created_at@,
            response: self.response@,
            done: self.done,
        }
    }
}

} // verus!
