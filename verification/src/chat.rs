//! Chat-completion requests and responses: the request built for a news
//! snippet, and the summary read back out of a response.
//!
//! Sending the request over the network and decoding the response bytes
//! happen outside this crate; the library fixes what the request holds and
//! what a given response summarizes to.

use vstd::prelude::*;
use vstd::string::StringExecFns;

verus! {

/// The role of a chat message.
#[derive(Clone, Copy, PartialEq, Eq, Structural, Debug)]
pub enum Role {
    System,
    User,
}

/// One role-tagged message of a chat conversation.
#[derive(Debug)]
pub struct ChatMessage {
    pub role: Role,
    pub content: String,
}

/// A chat-completion request: a model identifier and the ordered pair of a
/// system message and a user message.
#[derive(Debug)]
pub struct ChatRequest {
    pub model: String,
    pub messages: Vec<ChatMessage>,
}

/// One generated choice of a chat-completion response.
#[derive(Debug)]
pub struct Choice {
    pub message: ChatMessage,
}

/// A chat-completion response: an ordered sequence of choices, of which only
/// the first is ever consulted.
#[derive(Debug)]
pub struct ChatResponse {
    pub choices: Vec<Choice>,
}

/// The model every summarization request names.
pub open spec fn model_spec() -> Seq<char> {
    "gpt-3.5-turbo"@
}

/// The fixed instruction of the system message.
pub open spec fn system_prompt_spec() -> Seq<char> {
    "You are a translator. Your job is to summarize English news in Japanese in 100 characters and article url."@
}

/// The content of the user message: the snippet, a newline, the article URL.
pub open spec fn user_content_spec(snippet: Seq<char>, url: Seq<char>) -> Seq<char> {
    snippet + "\n"@ + url
}

/// Whether `req` is exactly the summarization request for `snippet` and
/// `url`: the fixed model, the fixed system message, and the user message
/// built from snippet and URL, in that order.
pub open spec fn request_matches(req: ChatRequest, snippet: Seq<char>, url: Seq<char>) -> bool {
    &&& req.model@ == model_spec()
    &&& req.messages@.len() == 2
    &&& req.messages@[0].role == Role::System
    &&& req.messages@[0].content@ == system_prompt_spec()
    &&& req.messages@[1].role == Role::User
    &&& req.messages@[1].content@ == user_content_spec(snippet, url)
}

/// Builds the chat-completion request that asks for a short translated
/// summary of `snippet` together with the article `url`.
pub fn build_chat_request(snippet: &str, url: &str) -> (r: ChatRequest)
    ensures
        request_matches(r, snippet@, url@),
{
    let system = ChatMessage {
        role: Role::System,
        content: String::from_str(
            "You are a translator. Your job is to summarize English news in Japanese in 100 characters and article url.",
        ),
    };
    let user = ChatMessage {
        role: Role::User,
        content: String::from_str(snippet).concat("\n").concat(url),
    };
    let mut messages: Vec<ChatMessage> = Vec::new();
    messages.push(system);
    messages.push(user);
    ChatRequest { model: String::from_str("gpt-3.5-turbo"), messages }
}

/// The summary a response yields: the content of its first choice, or the
/// empty string when there is no choice at all.  The missing choice is a
/// deliberate soft failure, not an error.
pub open spec fn summary_spec(resp: ChatResponse) -> Seq<char> {
    if resp.choices@.len() == 0 {
        Seq::<char>::empty()
    } else {
        resp.choices@[0].message.content@
    }
}

/// Reads the summary out of a chat-completion response.
pub fn extract_summary(resp: &ChatResponse) -> (r: String)
    ensures
        r@ == summary_spec(*resp),
{
    if resp.choices.len() == 0 {
        String::new()
    } else {
        resp.choices[0].message.content.clone()
    }
}

} // verus!
