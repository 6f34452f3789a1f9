//! A small news-summary pipeline: a fixed list of RSS feeds is fetched one by
//! one, the newest item of each feed is extracted, and a chat-completion
//! request asking for a short translated summary is built for it.  The
//! aggregation over the feed list is fail-fast: the first error aborts the
//! whole run and no partial list of summaries is ever handed out.
//!
//! Network traffic and process startup live outside this crate; the library
//! holds the decisions: feed parsing and item extraction, snippet truncation,
//! chat-request construction, response handling, and the aggregation state
//! machine that drives them.

pub mod chat;
pub mod feed;
pub mod pipeline;
