//! The request interceptor: finds the text of a request that the policy
//! engine has to judge, and words the answer for a refused request.

use vstd::prelude::*;
use crate::api_types::{messages_view, Message, MessageView};
use crate::text::{has_substring, join2, lemma_middle_is_substring, slice_text, str_eq};

verus! {

/// Whether a message was written by the user.
pub open spec fn is_user(message: MessageView) -> bool {
    message.role == "user"@
}

/// The policy text of a conversation: the content of the last message whose
/// role is `user`. A conversation without such a message has none and is not
/// judged: it is let through. This default is permissive on purpose.
pub open spec fn policy_text(messages: Seq<MessageView>) -> Option<Seq<char>>
    decreases messages.len(),
{
    if messages.len() == 0 {
        None
    } else if is_user(messages.last()) {
        Some(messages.last().content)
    } else {
        policy_text(messages.drop_last())
    }
}

/// The policy text is the content of a user message that no user message
/// follows; there is none exactly when no message is the user's.
pub proof fn lemma_policy_text_is_last_user(messages: Seq<MessageView>)
    ensures
        match policy_text(messages) {
            Some(text) => exists|i: int|
                0 <= i < messages.len() && is_user(#[trigger] messages[i]) && messages[i].content
                    == text && forall|j: int|
                    i < j < messages.len() ==> !is_user(#[trigger] messages[j]),
            None => forall|j: int| 0 <= j < messages.len() ==> !is_user(#[trigger] messages[j]),
        },
    decreases messages.len(),
{
    if messages.len() == 0 {
    } else if is_user(messages.last()) {
        let i = messages.len() - 1;
        assert(is_user(messages[i]) && messages[i].content == policy_text(messages)->Some_0);
    } else {
        let rest = messages.drop_last();
        lemma_policy_text_is_last_user(rest);
        match policy_text(rest) {
            Some(text) => {
                let i = choose|i: int|
                    0 <= i < rest.len() && is_user(#[trigger] rest[i]) && rest[i].content == text
                        && forall|j: int| i < j < rest.len() ==> !is_user(#[trigger] rest[j]);
                assert(messages[i] == rest[i]);
                assert forall|j: int| i < j < messages.len() implies !is_user(
                    #[trigger] messages[j],
                ) by {
                    if j < rest.len() {
                        assert(messages[j] == rest[j]);
                    }
                }
            },
            None => {
                assert forall|j: int| 0 <= j < messages.len() implies !is_user(
                    #[trigger] messages[j],
                ) by {
                    if j < rest.len() {
                        assert(messages[j] == rest[j]);
                    }
                }
            },
        }
    }
}

/// Finds the policy text of a conversation.
pub fn find_policy_text(messages: &Vec<Message>) -> (r: Option<&str>)
    ensures
        slice_text(r) == policy_text(messages_view(messages@)),
{
    let ghost all = messages_view(messages@);
    let mut k: usize = messages.len();
    assert(all.take(k as int) =~= all);
    while k > 0
        invariant
            k <= messages.len(),
            all == messages_view(messages@),
            policy_text(all) == policy_text(all.take(k as int)),
        decreases k,
    {
        let ghost here = all.take(k as int);
        assert(here.last() == messages@[k - 1]@);
        assert(here.drop_last() =~= all.take(k - 1));
        if str_eq(messages[k - 1].role.as_str(), "user") {
            return Some(messages[k - 1].content.as_str());
        }
        k -= 1;
    }
    None
}

/// The text that an answer carries in place of a completion when the request
/// was refused: a shield, the gateway's name, and the refusal.
pub open spec fn alert_text(refusal: Seq<char>) -> Seq<char> {
    "\u{1F6E1}\u{FE0F} **Molt-Guard Security Alert**: "@ + refusal
}

/// The assistant message that carries a security alert.
pub open spec fn alert_message(refusal: Seq<char>) -> MessageView {
    MessageView { role: "assistant"@, content: alert_text(refusal) }
}

/// Words the security alert for a refusal.
pub fn security_alert(refusal: &str) -> (r: String)
    ensures
        r@ == alert_text(refusal@),
{
    join2("\u{1F6E1}\u{FE0F} **Molt-Guard Security Alert**: ", refusal)
}

/// The assistant message that carries the security alert for a refusal.
pub fn security_alert_message(refusal: &str) -> (r: Message)
    ensures
        r@ == alert_message(refusal@),
{
    Message { role: "assistant".to_owned(), content: security_alert(refusal) }
}

/// A security alert contains the refusal that it was made for.
pub proof fn lemma_alert_carries_refusal(refusal: Seq<char>)
    ensures
        has_substring(alert_text(refusal), refusal),
{
    lemma_middle_is_substring(
        "\u{1F6E1}\u{FE0F} **Molt-Guard Security Alert**: "@,
        refusal,
        Seq::empty(),
    );
    assert(alert_text(refusal) =~= "\u{1F6E1}\u{FE0F} **Molt-Guard Security Alert**: "@ + refusal
        + Seq::<char>::empty());
}

} // verus!
