use news_summary::chat::ChatMessage;
use news_summary::chat::ChatResponse;
use news_summary::chat::Choice;
use news_summary::chat::Role;
use news_summary::chat::build_chat_request;
use news_summary::chat::extract_summary;

fn response_with(contents: &[&str]) -> ChatResponse {
    ChatResponse {
        choices: contents
            .iter()
            .map(|c| Choice {
                message: ChatMessage { role: Role::User, content: c.to_string() },
            })
            .collect(),
    }
}

#[test]
fn empty_choices_yield_empty_summary() {
    let resp = ChatResponse { choices: Vec::new() };
    assert_eq!(extract_summary(&resp), "");
}

#[test]
fn first_choice_is_taken_verbatim() {
    let resp = response_with(&["S1"]);
    assert_eq!(extract_summary(&resp), "S1");
}

#[test]
fn later_choices_are_ignored() {
    let resp = response_with(&["first", "second", "third"]);
    assert_eq!(extract_summary(&resp), "first");
}

#[test]
fn request_holds_model_and_message_pair() {
    let req = build_chat_request("Some news text", "http://example.com/article");
    assert_eq!(req.model, "gpt-3.5-turbo");
    assert_eq!(req.messages.len(), 2);
    assert!(matches!(req.messages[0].role, Role::System));
    assert_eq!(
        req.messages[0].content,
        "You are a translator. Your job is to summarize English news in Japanese \
in 100 characters and article url."
    );
    assert!(matches!(req.messages[1].role, Role::User));
    assert_eq!(req.messages[1].content, "Some news text\nhttp://example.com/article");
}
