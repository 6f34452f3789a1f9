//! The aggregation pipeline: the fixed feed list, the unified error kind, and
//! the fail-fast state machine that drives fetch, parse and summarize over
//! the feeds in list order.
//!
//! The machine asks its caller for one piece of outside work at a time — a
//! GET of a feed URL, or a POST of a chat-completion request — and is handed
//! the outcome back.  The first failure of any stage aborts the whole run:
//! the summaries gathered so far are discarded, never handed out.

use vstd::prelude::*;
use vstd::string::StringExecFns;
use crate::chat::ChatRequest;
use crate::chat::ChatResponse;
use crate::chat::build_chat_request;
use crate::chat::extract_summary;
use crate::chat::request_matches;
use crate::chat::summary_spec;
use crate::feed::FeedItem;
use crate::feed::ParseError;
use crate::feed::parse_feed;
use crate::feed::parse_spec;

verus! {

/// The unified error that aborts an aggregation: a feed fetch failed, a feed
/// document was unusable, or the chat-completion call failed.
#[derive(Clone, Copy, PartialEq, Eq, Structural, Debug)]
pub enum PipelineError {
    Fetch,
    Parse(ParseError),
    Call,
}

impl PipelineError {
    /// What each error says; parse errors name the missing piece.
    pub open spec fn message_spec(&self) -> Seq<char> {
        match *self {
            PipelineError::Fetch => "Failed to fetch the feed"@,
            PipelineError::Parse(ParseError::MalformedXml) => "Failed to parse the feed"@,
            PipelineError::Parse(ParseError::NoItems) => "No items in feed"@,
            PipelineError::Parse(ParseError::NoDescription) => "No description in item"@,
            PipelineError::Parse(ParseError::NoLink) => "No url in item"@,
            PipelineError::Call => "Failed to call the summarizer"@,
        }
    }

    /// A short, one-line description of the error.
    pub fn message(&self) -> (r: String)
        ensures
            r@ == self.message_spec(),
    {
        match *self {
            PipelineError::Fetch => String::from_str("Failed to fetch the feed"),
            PipelineError::Parse(ParseError::MalformedXml) => String::from_str(
                "Failed to parse the feed",
            ),
            PipelineError::Parse(ParseError::NoItems) => String::from_str("No items in feed"),
            PipelineError::Parse(ParseError::NoDescription) => String::from_str(
                "No description in item",
            ),
            PipelineError::Parse(ParseError::NoLink) => String::from_str("No url in item"),
            PipelineError::Call => String::from_str("Failed to call the summarizer"),
        }
    }
}

/// Where an aggregation stands.
#[derive(Debug)]
pub enum Phase {
    /// Waiting for the body of the current feed's document.
    Fetching,
    /// Waiting for the chat-completion response about `item`.
    Summarizing { item: FeedItem },
    /// Every feed went through; the summaries are complete.
    Done,
    /// Some stage failed; the whole run is aborted.
    Failed { error: PipelineError },
}

/// The outside work the caller is asked to do next.
#[derive(Debug)]
pub enum Step {
    /// Issue a GET for `url` and hand the body back through `on_fetch`.
    Fetch { url: String },
    /// Send `request` to the chat-completion endpoint and hand the decoded
    /// response back through `on_response`.
    Summarize { request: ChatRequest },
}

/// The fail-fast aggregation over a fixed feed list.  Feeds are processed
/// strictly in list order, one at a time; `summaries` grows by exactly one
/// entry per fully processed feed and is emptied the moment any stage fails.
#[derive(Debug)]
pub struct Aggregator {
    pub feeds: Vec<String>,
    pub pos: usize,
    pub summaries: Vec<String>,
    pub phase: Phase,
}

impl Aggregator {
    /// The machine's invariant: the position never passes the feed list, a
    /// running or finished machine holds one summary per completed feed, and
    /// a failed one holds none.
    pub open spec fn wf(&self) -> bool {
        &&& self.pos <= self.feeds@.len()
        &&& (self.phase is Fetching || self.phase is Summarizing) ==> self.pos
            < self.feeds@.len()
        &&& self.phase is Done ==> self.pos == self.feeds@.len()
        &&& self.phase is Failed ==> self.summaries@.len() == 0
        &&& !(self.phase is Failed) ==> self.summaries@.len() == self.pos
    }

    /// Whether the machine still wants outside work.
    pub open spec fn running(&self) -> bool {
        self.phase is Fetching || self.phase is Summarizing
    }

    /// Starts an aggregation over `feeds`; an empty list is complete at once.
    pub fn new(feeds: Vec<String>) -> (a: Aggregator)
        ensures
            a.wf(),
            a.feeds == feeds,
            a.pos == 0,
            a.summaries@.len() == 0,
            feeds@.len() == 0 ==> a.phase is Done,
            feeds@.len() > 0 ==> a.phase is Fetching,
    {
        let phase = if feeds.len() == 0 {
            Phase::Done
        } else {
            Phase::Fetching
        };
        Aggregator { feeds, pos: 0, summaries: Vec::new(), phase }
    }

    /// Whether the machine still wants outside work.
    pub fn is_running(&self) -> (b: bool)
        ensures
            b == self.running(),
    {
        match &self.phase {
            Phase::Fetching => true,
            Phase::Summarizing { .. } => true,
            _ => false,
        }
    }

    /// The next piece of outside work: fetch the current feed, or summarize
    /// its already-extracted newest item.
    pub fn next_step(&self) -> (s: Step)
        requires
            self.wf(),
            self.running(),
        ensures
            self.phase is Fetching ==> (s matches Step::Fetch { url } && url@
                == self.feeds@[self.pos as int]@),
            (self.phase matches Phase::Summarizing { item } ==> (s matches Step::Summarize {
                request,
            } && request_matches(request, item.description@, item.link@))),
    {
        match &self.phase {
            Phase::Fetching => Step::Fetch { url: self.feeds[self.pos].clone() },
            Phase::Summarizing { item } => Step::Summarize {
                request: build_chat_request(item.description.as_str(), item.link.as_str()),
            },
            _ => {
                proof {
                    assert(false);
                }
                Step::Fetch { url: String::new() }
            },
        }
    }

    /// Takes the outcome of the current feed's GET: `None` for a transport
    /// failure, `Some` for the body text.  A failure, or an unusable
    /// document, aborts the run and discards every summary gathered so far;
    /// otherwise the extracted newest item is held for summarization.
    pub fn on_fetch(&mut self, body: Option<&str>)
        requires
            old(self).wf(),
            old(self).phase is Fetching,
        ensures
            final(self).wf(),
            final(self).feeds == old(self).feeds,
            final(self).pos == old(self).pos,
            (body is None ==> (final(self).phase matches Phase::Failed { error } && error
                == PipelineError::Fetch && final(self).summaries@.len() == 0)),
            (body matches Some(b) ==> (match parse_spec(b@) {
                Ok(fields) => final(self).phase matches Phase::Summarizing { item } && item@
                    == fields && final(self).summaries == old(self).summaries,
                Err(e) => final(self).phase matches Phase::Failed { error } && error
                    == PipelineError::Parse(e) && final(self).summaries@.len() == 0,
            })),
    {
        match body {
            None => {
                self.summaries = Vec::new();
                self.phase = Phase::Failed { error: PipelineError::Fetch };
            },
            Some(b) => {
                match parse_feed(b) {
                    Ok(item) => {
                        self.phase = Phase::Summarizing { item };
                    },
                    Err(e) => {
                        self.summaries = Vec::new();
                        self.phase = Phase::Failed { error: PipelineError::Parse(e) };
                    },
                }
            },
        }
    }

    /// Takes the outcome of the chat-completion call: `None` for a transport
    /// or decode failure, which aborts the run and discards every summary;
    /// `Some` appends the response's summary and moves on to the next feed,
    /// or completes the run after the last one.
    pub fn on_response(&mut self, resp: Option<&ChatResponse>)
        requires
            old(self).wf(),
            old(self).phase is Summarizing,
        ensures
            final(self).wf(),
            final(self).feeds == old(self).feeds,
            (resp is None ==> (final(self).phase matches Phase::Failed { error } && error
                == PipelineError::Call && final(self).summaries@.len() == 0)),
            (resp matches Some(r) ==> {
                &&& final(self).summaries@.map_values(|s: String| s@) == old(
                    self,
                ).summaries@.map_values(|s: String| s@).push(summary_spec(*r))
                &&& final(self).pos == old(self).pos + 1
                &&& final(self).pos == final(self).feeds@.len() ==> final(self).phase is Done
                &&& final(self).pos < final(self).feeds@.len() ==> final(self).phase is Fetching
            }),
    {
        match resp {
            None => {
                self.summaries = Vec::new();
                self.phase = Phase::Failed { error: PipelineError::Call };
            },
            Some(r) => {
                let summary = extract_summary(r);
                self.summaries.push(summary);
                let feed_count = self.feeds.len();
                self.pos = self.pos + 1;
                if self.pos == feed_count {
                    self.phase = Phase::Done;
                } else {
                    self.phase = Phase::Fetching;
                }
                proof {
                    assert(self.summaries@.map_values(|s: String| s@) =~= old(
                        self,
                    ).summaries@.map_values(|s: String| s@).push(summary_spec(*r)));
                }
            },
        }
    }

    /// Hands the run's outcome out: the full, order-preserving summary list
    /// of a completed run — one summary per feed — or the single error that
    /// aborted it.  A failed run exposes no summary at all.
    pub fn finish(self) -> (r: Result<Vec<String>, PipelineError>)
        requires
            self.wf(),
            !self.running(),
        ensures
            (self.phase is Done ==> (r matches Ok(summaries) && summaries == self.summaries
                && summaries@.len() == self.feeds@.len())),
            (self.phase matches Phase::Failed { error } ==> (r matches Err(e) && e == error)),
    {
        match self.phase {
            Phase::Done => Ok(self.summaries),
            Phase::Failed { error } => Err(error),
            _ => {
                proof {
                    assert(false);
                }
                Err(PipelineError::Fetch)
            },
        }
    }
}

/// Law: no partial list is ever observable.  In every reachable state a
/// completed aggregation holds exactly one summary per feed, and a failed
/// one holds no summaries at all.
pub proof fn lemma_no_partial_results(a: Aggregator)
    requires
        a.wf(),
    ensures
        a.phase is Done ==> a.summaries@.len() == a.feeds@.len(),
        a.phase is Failed ==> a.summaries@.len() == 0,
{
}

/// The outside outcomes one feed meets: the fetched document body, or `None`
/// for a transport failure, and the decoded chat response, or `None` for a
/// failed call.  The response only matters when fetch and parse both
/// succeed.
#[derive(Debug)]
pub struct FeedOutcome {
    pub body: Option<String>,
    pub response: Option<ChatResponse>,
}

/// Whether every stage of one feed succeeds under outcome `o`.
pub open spec fn feed_succeeds(o: FeedOutcome) -> bool {
    &&& o.body is Some
    &&& parse_spec(o.body->0@) is Ok
    &&& o.response is Some
}

/// The error of the first stage of one feed that fails under outcome `o`.
pub open spec fn feed_error(o: FeedOutcome) -> PipelineError
    recommends
        !feed_succeeds(o),
{
    if o.body is None {
        PipelineError::Fetch
    } else if parse_spec(o.body->0@) is Err {
        PipelineError::Parse(parse_spec(o.body->0@)->Err_0)
    } else {
        PipelineError::Call
    }
}

/// What an aggregation over `feeds` yields when feed `i` meets the outcomes
/// `outcomes[i]`: the summaries of all feeds in list order when every stage
/// of every feed succeeds, else the error of the first failing stage.
pub open spec fn aggregate_spec(feeds: Seq<Seq<char>>, outcomes: Seq<FeedOutcome>) -> Result<
    Seq<Seq<char>>,
    PipelineError,
>
    recommends
        outcomes.len() == feeds.len(),
    decreases feeds.len(),
{
    if feeds.len() == 0 {
        Ok(Seq::empty())
    } else if !feed_succeeds(outcomes[0]) {
        Err(feed_error(outcomes[0]))
    } else {
        match aggregate_spec(feeds.drop_first(), outcomes.drop_first()) {
            Ok(rest) => Ok(seq![summary_spec(outcomes[0].response->0)] + rest),
            Err(e) => Err(e),
        }
    }
}

/// Summaries already gathered, glued onto what the remaining feeds yield.
pub open spec fn with_prefix(
    prefix: Seq<Seq<char>>,
    rest: Result<Seq<Seq<char>>, PipelineError>,
) -> Result<Seq<Seq<char>>, PipelineError> {
    match rest {
        Ok(r) => Ok(prefix + r),
        Err(e) => Err(e),
    }
}

/// A run result, string by string, as a mathematical value.
pub open spec fn run_result_view(r: Result<Vec<String>, PipelineError>) -> Result<
    Seq<Seq<char>>,
    PipelineError,
> {
    match r {
        Ok(v) => Ok(v@.map_values(|s: String| s@)),
        Err(e) => Err(e),
    }
}

/// How many machine steps a run has left; zero once it is done or failed.
spec fn steps_left(a: Aggregator) -> int {
    if a.phase is Fetching {
        2 * (a.feeds@.len() - a.pos)
    } else if a.phase is Summarizing {
        2 * (a.feeds@.len() - a.pos) - 1
    } else {
        0
    }
}

/// Runs a whole aggregation against a pre-decided script of outcomes, one
/// per feed: feed `i` gets the fetch outcome `outcomes[i].body` and, when it
/// reaches summarization, the call outcome `outcomes[i].response`.  The
/// result is exactly `aggregate_spec`: the machine driven step by step
/// agrees with the one-shot mathematical description of fail-fast
/// aggregation.
pub fn run_scripted(feeds: Vec<String>, outcomes: &Vec<FeedOutcome>) -> (r: Result<
    Vec<String>,
    PipelineError,
>)
    requires
        outcomes@.len() == feeds@.len(),
    ensures
        run_result_view(r) == aggregate_spec(feeds@.map_values(|s: String| s@), outcomes@),
{
    let ghost all_feeds = feeds@.map_values(|s: String| s@);
    let ghost os = outcomes@;
    let mut agg = Aggregator::new(feeds);
    proof {
        assert(all_feeds.skip(0) =~= all_feeds);
        assert(os.skip(0) =~= os);
        assert(agg.summaries@.map_values(|s: String| s@) =~= Seq::<Seq<char>>::empty());
        match aggregate_spec(all_feeds, os) {
            Ok(whole) => {
                assert(Seq::<Seq<char>>::empty() + whole =~= whole);
            },
            Err(_) => {},
        }
    }
    while agg.is_running()
        invariant
            agg.wf(),
            agg.feeds@.map_values(|s: String| s@) == all_feeds,
            outcomes@ == os,
            os.len() == all_feeds.len(),
            agg.running() ==> with_prefix(
                agg.summaries@.map_values(|s: String| s@),
                aggregate_spec(all_feeds.skip(agg.pos as int), os.skip(agg.pos as int)),
            ) == aggregate_spec(all_feeds, os),
            (agg.phase matches Phase::Summarizing { item } ==> {
                &&& os[agg.pos as int].body is Some
                &&& parse_spec(os[agg.pos as int].body->0@) matches Ok(fields)
                &&& item@ == fields
            }),
            agg.phase is Done ==> aggregate_spec(all_feeds, os) == Ok::<
                Seq<Seq<char>>,
                PipelineError,
            >(agg.summaries@.map_values(|s: String| s@)),
            (agg.phase matches Phase::Failed { error } ==> aggregate_spec(all_feeds, os) == Err::<
                Seq<Seq<char>>,
                PipelineError,
            >(error)),
        decreases steps_left(agg),
    {
        let ghost pos = agg.pos as int;
        let ghost prefix = agg.summaries@.map_values(|s: String| s@);
        let i = agg.pos;
        match agg.next_step() {
            Step::Fetch { url: _url } => {
                match &outcomes[i].body {
                    Some(b) => {
                        agg.on_fetch(Some(b.as_str()));
                    },
                    None => {
                        agg.on_fetch(None);
                    },
                }
            },
            Step::Summarize { request: _request } => {
                match &outcomes[i].response {
                    Some(resp) => {
                        agg.on_response(Some(resp));
                        proof {
                            if agg.running() || agg.phase is Done {
                                assert(all_feeds.skip(pos).drop_first() =~= all_feeds.skip(
                                    pos + 1,
                                ));
                                assert(os.skip(pos).drop_first() =~= os.skip(pos + 1));
                                let rest = aggregate_spec(
                                    all_feeds.skip(pos + 1),
                                    os.skip(pos + 1),
                                );
                                if rest is Ok {
                                    assert(prefix + (seq![summary_spec(os[pos].response->0)]
                                        + rest->Ok_0) =~= agg.summaries@.map_values(|s: String| s@)
                                        + rest->Ok_0);
                                }
                                if agg.phase is Done {
                                    assert(os.skip(pos + 1).len() == 0);
                                    assert(agg.summaries@.map_values(|s: String| s@)
                                        + Seq::<Seq<char>>::empty() =~= agg.summaries@.map_values(
                                        |s: String| s@,
                                    ));
                                }
                            }
                        }
                    },
                    None => {
                        agg.on_response(None);
                    },
                }
            },
        }
    }
    agg.finish()
}

/// Law: aggregation is all-or-nothing.  Over any feed list and any script of
/// stage outcomes, the run yields a summary list — one summary per feed, so
/// its length equals the feed list's — if and only if every stage of every
/// feed succeeds; otherwise the whole run yields a single error and no list
/// at all.
pub proof fn lemma_all_or_nothing(feeds: Seq<Seq<char>>, outcomes: Seq<FeedOutcome>)
    requires
        outcomes.len() == feeds.len(),
    ensures
        (aggregate_spec(feeds, outcomes) is Ok) <==> (forall|i: int|
            0 <= i < outcomes.len() ==> feed_succeeds(#[trigger] outcomes[i])),
        (aggregate_spec(feeds, outcomes) matches Ok(s) ==> s.len() == feeds.len()),
    decreases feeds.len(),
{
    if feeds.len() == 0 {
    } else if !feed_succeeds(outcomes[0]) {
    } else {
        let ftail = feeds.drop_first();
        let otail = outcomes.drop_first();
        lemma_all_or_nothing(ftail, otail);
        assert(forall|i: int| 0 <= i < otail.len() ==> otail[i] == outcomes[i + 1]);
        if aggregate_spec(ftail, otail) is Ok {
            assert forall|i: int| 0 <= i < outcomes.len() implies feed_succeeds(
                #[trigger] outcomes[i],
            ) by {
                if i > 0 {
                    assert(outcomes[i] == otail[i - 1]);
                }
            }
        } else {
            let j = choose|j: int| 0 <= j < otail.len() && !feed_succeeds(#[trigger] otail[j]);
            assert(!feed_succeeds(outcomes[j + 1]));
        }
    }
}

/// The fixed feed list, in the order in which the feeds are aggregated.
pub open spec fn default_feeds_spec() -> Seq<Seq<char>> {
    seq![
        "https://www.searchenginejournal.com/feed/"@,
        "https://moz.com/blog/feed"@,
        "https://css-tricks.com/feed/"@,
        "https://frontendfoc.us/rss"@,
        "https://thenewstack.io/feed/"@,
        "https://feeds.dzone.com/deployment"@,
        "https://feeds.dzone.com/databases"@,
        "https://github.blog/feed/"@,
        "https://devops.com/feed/"@,
        "https://blog.cloudflare.com/rss/"@,
        "https://engineeringmanagementinstitute.org/feed/"@,
        "https://leaddev.com/content-piece-and-series/rss.xml"@,
        "https://feeds.feedburner.com/TheHackersNews"@,
        "https://krebsonsecurity.com/feed/"@,
        "https://techcrunch.com/feed/"@,
    ]
}

/// The fixed feed list as owned strings, exactly `default_feeds_spec()`.
pub fn default_feed_list() -> (r: Vec<String>)
    ensures
        r@.map_values(|s: String| s@) =~= default_feeds_spec(),
{
    let mut v: Vec<String> = Vec::new();
    v.push(String::from_str("https://www.searchenginejournal.com/feed/"));
    v.push(String::from_str("https://moz.com/blog/feed"));
    v.push(String::from_str("https://css-tricks.com/feed/"));
    v.push(String::from_str("https://frontendfoc.us/rss"));
    v.push(String::from_str("https://thenewstack.io/feed/"));
    v.push(String::from_str("https://feeds.dzone.com/deployment"));
    v.push(String::from_str("https://feeds.dzone.com/databases"));
    v.push(String::from_str("https://github.blog/feed/"));
    v.push(String::from_str("https://devops.com/feed/"));
    v.push(String::from_str("https://blog.cloudflare.com/rss/"));
    v.push(String::from_str("https://engineeringmanagementinstitute.org/feed/"));
    v.push(String::from_str("https://leaddev.com/content-piece-and-series/rss.xml"));
    v.push(String::from_str("https://feeds.feedburner.com/TheHackersNews"));
    v.push(String::from_str("https://krebsonsecurity.com/feed/"));
    v.push(String::from_str("https://techcrunch.com/feed/"));
    v
}

} // verus!
