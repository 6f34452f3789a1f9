use news_summary::chat::ChatMessage;
use news_summary::chat::ChatResponse;
use news_summary::chat::Choice;
use news_summary::chat::Role;
use news_summary::feed::ParseError;
use news_summary::pipeline::Aggregator;
use news_summary::pipeline::FeedOutcome;
use news_summary::pipeline::PipelineError;
use news_summary::pipeline::Step;
use news_summary::pipeline::default_feed_list;
use news_summary::pipeline::run_scripted;

fn feed_body(description: &str, link: &str) -> String {
    format!(
        "<rss version=\"2.0\"><channel><title>T</title><item>\
<description>{}</description><link>{}</link></item></channel></rss>",
        description, link
    )
}

fn response_saying(summary: &str) -> ChatResponse {
    ChatResponse {
        choices: vec![Choice {
            message: ChatMessage { role: Role::User, content: summary.to_string() },
        }],
    }
}

#[test]
fn second_feed_fetch_failure_fails_the_whole_run() {
    let feeds = vec!["http://feeds.example/a".to_string(), "http://feeds.example/b".to_string()];
    let outcomes = vec![
        FeedOutcome {
            body: Some(feed_body("News A", "http://example.com/a")),
            response: Some(response_saying("S1")),
        },
        FeedOutcome { body: None, response: None },
    ];
    let result = run_scripted(feeds, &outcomes);
    assert_eq!(result, Err(PipelineError::Fetch));
}

#[test]
fn two_successful_feeds_yield_both_summaries_in_order() {
    let feeds = vec!["http://feeds.example/a".to_string(), "http://feeds.example/b".to_string()];
    let outcomes = vec![
        FeedOutcome {
            body: Some(feed_body("News A", "http://example.com/a")),
            response: Some(response_saying("S1")),
        },
        FeedOutcome {
            body: Some(feed_body("News B", "http://example.com/b")),
            response: Some(response_saying("S2")),
        },
    ];
    let result = run_scripted(feeds, &outcomes);
    assert_eq!(result, Ok(vec!["S1".to_string(), "S2".to_string()]));
}

#[test]
fn unusable_first_feed_hides_later_successes() {
    let feeds = vec!["http://feeds.example/a".to_string(), "http://feeds.example/b".to_string()];
    let empty_channel = "<rss version=\"2.0\"><channel><title>T</title></channel></rss>";
    let outcomes = vec![
        FeedOutcome { body: Some(empty_channel.to_string()), response: None },
        FeedOutcome {
            body: Some(feed_body("News B", "http://example.com/b")),
            response: Some(response_saying("S2")),
        },
    ];
    let result = run_scripted(feeds, &outcomes);
    assert_eq!(result, Err(PipelineError::Parse(ParseError::NoItems)));
}

#[test]
fn failed_chat_call_fails_the_whole_run() {
    let feeds = vec!["http://feeds.example/a".to_string()];
    let outcomes = vec![FeedOutcome {
        body: Some(feed_body("News A", "http://example.com/a")),
        response: None,
    }];
    let result = run_scripted(feeds, &outcomes);
    assert_eq!(result, Err(PipelineError::Call));
}

#[test]
fn empty_feed_list_yields_empty_summary_list() {
    let result = run_scripted(Vec::<String>::new(), &Vec::<FeedOutcome>::new());
    assert_eq!(result, Ok(Vec::new()));
}

#[test]
fn aggregator_walks_fetch_then_summarize_then_done() {
    let mut agg = Aggregator::new(vec!["http://feeds.example/one".to_string()]);
    assert!(agg.is_running());
    match agg.next_step() {
        Step::Fetch { url } => assert_eq!(url, "http://feeds.example/one"),
        _ => panic!("expected a fetch step"),
    }
    let body = feed_body("News text", "http://example.com/article");
    agg.on_fetch(Some(&body));
    match agg.next_step() {
        Step::Summarize { request } => {
            assert_eq!(request.model, "gpt-3.5-turbo");
            assert_eq!(request.messages.len(), 2);
            assert!(matches!(request.messages[0].role, Role::System));
            assert!(matches!(request.messages[1].role, Role::User));
            assert_eq!(request.messages[1].content, "News text\nhttp://example.com/article");
        },
        _ => panic!("expected a summarize step"),
    }
    let resp = response_saying("S1");
    agg.on_response(Some(&resp));
    assert!(!agg.is_running());
    assert_eq!(agg.finish(), Ok(vec!["S1".to_string()]));
}

#[test]
fn aggregator_discards_gathered_summaries_on_failure() {
    let mut agg = Aggregator::new(vec![
        "http://feeds.example/a".to_string(),
        "http://feeds.example/b".to_string(),
    ]);
    let body = feed_body("News A", "http://example.com/a");
    agg.on_fetch(Some(&body));
    let resp = response_saying("S1");
    agg.on_response(Some(&resp));
    assert!(agg.is_running());
    agg.on_fetch(None);
    assert!(!agg.is_running());
    let result = agg.finish();
    assert_eq!(result, Err(PipelineError::Fetch));
}

#[test]
fn error_messages_name_the_missing_piece() {
    assert_eq!(PipelineError::Fetch.message(), "Failed to fetch the feed");
    assert_eq!(PipelineError::Parse(ParseError::NoItems).message(), "No items in feed");
    assert_eq!(
        PipelineError::Parse(ParseError::NoDescription).message(),
        "No description in item"
    );
    assert_eq!(PipelineError::Parse(ParseError::NoLink).message(), "No url in item");
    assert_eq!(
        PipelineError::Parse(ParseError::MalformedXml).message(),
        "Failed to parse the feed"
    );
    assert_eq!(PipelineError::Call.message(), "Failed to call the summarizer");
}

#[test]
fn default_feed_list_is_the_fixed_fifteen() {
    let feeds = default_feed_list();
    assert_eq!(feeds.len(), 15);
    assert_eq!(feeds[0], "https://www.searchenginejournal.com/feed/");
    assert_eq!(feeds[12], "https://feeds.feedburner.com/TheHackersNews");
    assert_eq!(feeds[14], "https://techcrunch.com/feed/");
}
