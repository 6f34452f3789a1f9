//! Feed parsing: an RSS document is parsed into its items, the first item in
//! document order is taken as the newest one, and its description is cut to a
//! bounded snippet before it is handed to the summarizer.
//!
//! The XML parse itself is done by the `rss` crate behind a trusted wrapper;
//! everything that happens after it — picking the first item, demanding a
//! description and a link, truncating the description — is verified.

use vstd::prelude::*;
use vstd::string::StrSliceExecFns;
use vstd::string::StringExecFns;

verus! {

/// The snippet handed to the summarizer holds at most this many characters
/// (Unicode scalar values, not bytes) of the item's description.
pub const SNIPPET_LIMIT: usize = 1000;

/// Why a fetched feed document could not be turned into a usable item.
#[derive(Clone, Copy, PartialEq, Eq, Structural, Debug)]
pub enum ParseError {
    /// The document is not a well-formed RSS channel.
    MalformedXml,
    /// The channel holds no items at all.
    NoItems,
    /// The newest item has no description.
    NoDescription,
    /// The newest item has no link.
    NoLink,
}

/// One item as the feed document carries it: description and link may each
/// be missing.
#[derive(Debug)]
pub struct RawItem {
    pub description: Option<String>,
    pub link: Option<String>,
}

/// The mathematical value of a `RawItem`.
pub struct ItemFields {
    pub description: Option<Seq<char>>,
    pub link: Option<Seq<char>>,
}

impl View for RawItem {
    type V = ItemFields;

    open spec fn view(&self) -> ItemFields {
        ItemFields { description: self.description.deep_view(), link: self.link.deep_view() }
    }
}

/// The newest item of a feed, ready for summarization: the description is
/// already truncated to `SNIPPET_LIMIT` characters, and both fields are
/// known to be present.
#[derive(Debug)]
pub struct FeedItem {
    pub description: String,
    pub link: String,
}

/// The mathematical value of a `FeedItem`.
pub struct FeedFields {
    pub description: Seq<char>,
    pub link: Seq<char>,
}

impl View for FeedItem {
    type V = FeedFields;

    open spec fn view(&self) -> FeedFields {
        FeedFields { description: self.description@, link: self.link@ }
    }
}

/// The items of the RSS channel that a document holds, in document order, or
/// `None` when the document is not a well-formed channel.  This names what
/// `rss::Channel::read_from` returns; nothing here states which documents
/// parse or what they parse to.
pub uninterp spec fn rss_items(body: Seq<char>) -> Option<Seq<ItemFields>>;

/// The error type of the `rss` crate, carried through the trusted wrapper.
#[verifier::external_type_specification]
#[verifier::external_body]
pub struct ExRssError(rss::Error);

/// Relies on `rss::Channel::read_from`: the parse reads nothing but the
/// input text, so its outcome is a function of that text alone, and each
/// parsed item's description and link are carried over unchanged.
#[verifier::external_body]
fn read_channel(body: &str) -> (r: Result<Vec<RawItem>, rss::Error>)
    ensures
        (r is Ok) == (rss_items(body@) is Some),
        r matches Ok(v) ==> Some(v@.map_values(|it: RawItem| it@)) == rss_items(body@),
{
    let channel = rss::Channel::read_from(body.as_bytes())?;
    let items = channel
        .items()
        .iter()
        .map(|it| RawItem {
            description: it.description().map(|s| s.to_string()),
            link: it.link().map(|s| s.to_string()),
        })
        .collect();
    Ok(items)
}

/// The first `limit` characters of `s`, or all of `s` when it is shorter.
pub open spec fn snippet_spec(s: Seq<char>, limit: nat) -> Seq<char> {
    if s.len() <= limit {
        s
    } else {
        s.subrange(0, limit as int)
    }
}

/// What extraction yields on a parsed item list: the first item must exist
/// and carry both a description and a link; the description is truncated.
pub open spec fn extract_spec(items: Seq<ItemFields>) -> Result<FeedFields, ParseError> {
    if items.len() == 0 {
        Err(ParseError::NoItems)
    } else if items[0].description is None {
        Err(ParseError::NoDescription)
    } else if items[0].link is None {
        Err(ParseError::NoLink)
    } else {
        Ok(
            FeedFields {
                description: snippet_spec(items[0].description->0, SNIPPET_LIMIT as nat),
                link: items[0].link->0,
            },
        )
    }
}

/// What feed parsing yields on a document: `MalformedXml` when the channel
/// does not parse, else extraction from its items.
pub open spec fn parse_spec(body: Seq<char>) -> Result<FeedFields, ParseError> {
    match rss_items(body) {
        Some(items) => extract_spec(items),
        None => Err(ParseError::MalformedXml),
    }
}

/// A parse result, field by field, as a mathematical value.
pub open spec fn parse_result_view(r: Result<FeedItem, ParseError>) -> Result<
    FeedFields,
    ParseError,
> {
    match r {
        Ok(item) => Ok(item@),
        Err(e) => Err(e),
    }
}

/// Law: the snippet of a description of at least `limit` characters holds
/// exactly the first `limit` of them; a shorter description passes through
/// whole.
pub proof fn lemma_snippet_bounds(s: Seq<char>, limit: nat)
    ensures
        s.len() >= limit ==> snippet_spec(s, limit).len() == limit,
        s.len() >= limit ==> snippet_spec(s, limit) == s.subrange(0, limit as int),
        s.len() < limit ==> snippet_spec(s, limit) == s,
{
    if s.len() == limit {
        assert(s.subrange(0, limit as int) =~= s);
    }
}

/// Law: each missing piece of a parsed channel yields its own error — no
/// items at all yields `NoItems`, a first item without a description yields
/// `NoDescription`, one with a description but no link yields `NoLink`.
pub proof fn lemma_extract_errors(items: Seq<ItemFields>)
    ensures
        items.len() == 0 ==> extract_spec(items) == Err::<FeedFields, ParseError>(
            ParseError::NoItems,
        ),
        (items.len() > 0 && items[0].description is None) ==> extract_spec(items) == Err::<
            FeedFields,
            ParseError,
        >(ParseError::NoDescription),
        (items.len() > 0 && items[0].description is Some && items[0].link is None)
            ==> extract_spec(items) == Err::<FeedFields, ParseError>(ParseError::NoLink),
{
}

/// Cuts `s` to its first `limit` characters, counting characters rather than
/// bytes.
pub fn truncate_chars(s: &str, limit: usize) -> (r: String)
    ensures
        r@ == snippet_spec(s@, limit as nat),
{
    let n = s.unicode_len();
    if n <= limit {
        String::from_str(s)
    } else {
        String::from_str(s.substring_char(0, limit))
    }
}

/// Picks the newest item out of a parsed item list: the first item in
/// document order, with its description truncated to `SNIPPET_LIMIT`
/// characters; each missing piece yields its own error.
pub fn extract_latest(items: &Vec<RawItem>) -> (r: Result<FeedItem, ParseError>)
    ensures
        parse_result_view(r) == extract_spec(items@.map_values(|it: RawItem| it@)),
{
    if items.len() == 0 {
        return Err(ParseError::NoItems);
    }
    let first = &items[0];
    let description = match &first.description {
        Some(d) => d,
        None => { return Err(ParseError::NoDescription) },
    };
    let link = match &first.link {
        Some(l) => l,
        None => { return Err(ParseError::NoLink) },
    };
    let snippet = truncate_chars(description.as_str(), SNIPPET_LIMIT);
    Ok(FeedItem { description: snippet, link: link.clone() })
}

/// Parses an RSS document and extracts its newest item.  The whole outcome —
/// which documents fail with which error, and the exact truncated item
/// otherwise — is `parse_spec`.
pub fn parse_feed(body: &str) -> (r: Result<FeedItem, ParseError>)
    ensures
        parse_result_view(r) == parse_spec(body@),
{
    match read_channel(body) {
        Ok(items) => extract_latest(&items),
        Err(_) => Err(ParseError::MalformedXml),
    }
}

} // verus!
