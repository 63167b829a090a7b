//! The OpenAI-compatible request and response shapes that the gateway speaks.

use vstd::prelude::*;
use crate::text::text_of;

verus! {

/// One message of a conversation. The role is an open string, so that roles
/// peculiar to a backend pass through.
#[derive(Clone, Debug, PartialEq, Eq)]
pub struct Message {
    pub role: String,
    pub content: String,
}

/// The mathematical content of a [`Message`].
pub struct MessageView {
    pub role: Seq<char>,
    pub content: Seq<char>,
}

impl View for Message {
    type V = MessageView;

    open spec fn view(&self) -> MessageView {
        MessageView { role: self.role@, content: self.content@ }
    }
}

/// The messages of a list, as mathematical values.
pub open spec fn messages_view(messages: Seq<Message>) -> Seq<MessageView> {
    messages.map_values(|m: Message| m@)
}

/// A chat-completion request.
#[derive(Clone, Debug, PartialEq, Eq)]
pub struct ChatCompletionRequest {
    pub model: String,
    pub messages: Vec<Message>,
    pub stream: Option<bool>,
}

/// The mathematical content of a [`ChatCompletionRequest`].
pub struct ChatCompletionRequestView {
    pub model: Seq<char>,
    pub messages: Seq<MessageView>,
    pub stream: Option<bool>,
}

impl View for ChatCompletionRequest {
    type V = ChatCompletionRequestView;

    open spec fn view(&self) -> ChatCompletionRequestView {
        ChatCompletionRequestView {
            model: self.model@,
            messages: messages_view(self.messages@),
            stream: self.stream,
        }
    }
}

/// Token counts of one completion.
#[derive(Clone, Copy, Debug, PartialEq, Eq, Structural)]
pub struct Usage {
    pub prompt_tokens: u64,
    pub completion_tokens: u64,
    pub total_tokens: u64,
}

/// The usage record for the two counts that a backend reports: present when
/// both counts are, and their sum fits in 64 bits.
pub open spec fn usage_of(prompt: Option<u64>, completion: Option<u64>) -> Option<Usage> {
    match (prompt, completion) {
        (Some(p), Some(c)) => if p + c <= u64::MAX {
            Some(
                Usage { prompt_tokens: p, completion_tokens: c, total_tokens: (p + c) as u64 },
            )
        } else {
            None
        },
        _ => None,
    }
}

impl Usage {
    /// The usage record for the counts that a backend reports.
    pub fn from_counts(prompt: Option<u64>, completion: Option<u64>) -> (r: Option<Usage>)
        ensures
            r == usage_of(prompt, completion),
    {
        match (prompt, completion) {
            (Some(p), Some(c)) => match p.checked_add(c) {
                Some(total) => Some(
                    Usage { prompt_tokens: p, completion_tokens: c, total_tokens: total },
                ),
                None => None,
            },
            _ => None,
        }
    }
}

/// One alternative of a completion.
#[derive(Clone, Debug, PartialEq, Eq)]
pub struct Choice {
    pub index: u32,
    pub message: Message,
    pub finish_reason: Option<String>,
}

/// The mathematical content of a [`Choice`].
pub struct ChoiceView {
    pub index: u32,
    pub message: MessageView,
    pub finish_reason: Option<Seq<char>>,
}

impl View for Choice {
    type V = ChoiceView;

    open spec fn view(&self) -> ChoiceView {
        ChoiceView {
            index: self.index,
            message: self.message@,
            finish_reason: text_of(self.finish_reason),
        }
    }
}

/// A chat-completion response.
#[derive(Clone, Debug, PartialEq, Eq)]
pub struct ChatCompletionResponse {
    pub id: String,
    pub object: String,
    pub created: u64,
    pub model: String,
    pub choices: Vec<Choice>,
    pub usage: Option<Usage>,
    pub system_fingerprint: Option<String>,
}

/// The mathematical content of a [`ChatCompletionResponse`].
pub struct ChatCompletionResponseView {
    pub id: Seq<char>,
    pub object: Seq<char>,
    pub created: u64,
    pub model: Seq<char>,
    pub choices: Seq<ChoiceView>,
    pub usage: Option<Usage>,
    pub system_fingerprint: Option<Seq<char>>,
}

impl View for ChatCompletionResponse {
    type V = ChatCompletionResponseView;

    open spec fn view(&self) -> ChatCompletionResponseView {
        ChatCompletionResponseView {
            id: self.id@,
            object: self.object@,
            created: self.created,
            model: self.model@,
            choices: self.choices@.map_values(|c: Choice| c@),
            usage: self.usage,
            system_fingerprint: text_of(self.system_fingerprint),
        }
    }
}

/// The envelope of a completion with the single choice `message`.
pub open spec fn completion_envelope(
    id: Seq<char>,
    created: u64,
    model: Seq<char>,
    message: MessageView,
    usage: Option<Usage>,
) -> ChatCompletionResponseView {
    ChatCompletionResponseView {
        id,
        object: "chat.completion"@,
        created,
        model,
        choices: seq![ChoiceView { index: 0, message, finish_reason: Some("stop"@) }],
        usage,
        system_fingerprint: None,
    }
}

impl ChatCompletionResponse {
    /// Builds the envelope of a completion with the single choice `message`,
    /// finished by `stop`.
    pub fn single(id: String, created: u64, model: String, message: Message, usage: Option<Usage>) -> (r:
        Self)
        ensures
            r@ == completion_envelope(id@, created, model@, message@, usage),
    {
        let mut choices: Vec<Choice> = Vec::new();
        choices.push(Choice { index: 0, message, finish_reason: Some("stop".to_owned()) });
        let r = ChatCompletionResponse {
            id,
            object: "chat.completion".to_owned(),
            created,
            model,
            choices,
            usage,
            system_fingerprint: None,
        };
        assert(r@.choices =~= seq![
            ChoiceView { index: 0, message: message@, finish_reason: Some("stop"@) },
        ]);
        r
    }
}

/// One entry of the model list.
#[derive(Clone, Debug, PartialEq, Eq)]
pub struct ModelObject {
    pub id: String,
    pub object: String,
    pub created: u64,
    pub owned_by: String,
}

/// The mathematical content of a [`ModelObject`].
pub struct ModelObjectView {
    pub id: Seq<char>,
    pub object: Seq<char>,
    pub created: u64,
    pub owned_by: Seq<char>,
}

impl View for ModelObject {
    type V = ModelObjectView;

    open spec fn view(&self) -> ModelObjectView {
        ModelObjectView {
            id: self.id@,
            object: self.object@,
            created: self.created,
            owned_by: self.owned_by@,
        }
    }
}

/// The model list.
#[derive(Clone, Debug, PartialEq, Eq)]
pub struct ListModelsResponse {
    pub object: String,
    pub data: Vec<ModelObject>,
}

/// The mathematical content of a [`ListModelsResponse`].
pub struct ListModelsResponseView {
    pub object: Seq<char>,
    pub data: Seq<ModelObjectView>,
}

impl View for ListModelsResponse {
    type V = ListModelsResponseView;

    open spec fn view(&self) -> ListModelsResponseView {
        ListModelsResponseView {
            object: self.object@,
            data: self.data@.map_values(|m: ModelObject| m@),
        }
    }
}

/// The entry that stands for the backend model called `name`.
pub open spec fn model_entry(name: Seq<char>) -> ModelObjectView {
    ModelObjectView { id: name, object: "model"@, created: 0, owned_by: "ollama"@ }
}

/// The model list for the backend's model names, in the backend's order.
pub open spec fn model_list(names: Seq<Seq<char>>) -> ListModelsResponseView {
    ListModelsResponseView { object: "list"@, data: names.map_values(|n: Seq<char>| model_entry(n)) }
}

impl ListModelsResponse {
    /// The model list for the names that the backend reports.
    pub fn from_names(names: Vec<String>) -> (r: Self)
        ensures
            r@ == model_list(names@.map_values(|n: String| n@)),
    {
        let ghost wanted = model_list(names@.map_values(|n: String| n@));
        let mut data: Vec<ModelObject> = Vec::new();
        let mut k: usize = 0;
        while k < names.len()
            invariant
                k <= names.len(),
                data.len() == k,
                forall|j: int| 0 <= j < k ==> (#[trigger] data@[j])@ == model_entry(names@[j]@),
            decreases names.len() - k,
        {
            data.push(
                ModelObject {
                    id: names[k].clone(),
                    object: "model".to_owned(),
                    created: 0,
                    owned_by: "ollama".to_owned(),
                },
            );
            k += 1;
        }
        let r = ListModelsResponse { object: "list".to_owned(), data };
        assert(r@.data =~= wanted.data);
        r
    }
}

} // verus!
