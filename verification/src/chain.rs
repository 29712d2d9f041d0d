//! The crawl against a site: what it must collect, whoever drives it.
//!
//! A site is modelled as a function from paths to what fetching them
//! yields. Followed from its first page, the site determines a chain of
//! pages; the laws of this module say that a crawl whose events are the
//! true outcomes of the operations it asked for collects exactly the
//! batches of that chain, and therefore the same entries every time.

use crate::crawl::{started, Action, Event, Status};
use crate::fetch::FetchError;
use crate::markup::outline_of;
use crate::page::{parse_spec, parsed_view};
use crate::runs::run;
use crate::sink::entry_bag;
use vstd::prelude::*;

verus! {

/// The operation a crawl is waiting for.
pub enum Pending {
    /// The page at this path is being fetched.
    Fetch(Seq<char>),
    /// The page with this path and this content is being parsed.
    Parse(Seq<char>, Seq<char>),
    /// Nothing is in flight.
    Nothing,
}

/// How far the chain of a site has been followed.
pub struct Progress {
    /// The operation that comes next.
    pub pending: Pending,
    /// The batches of the pages parsed so far, in chain order.
    pub batches: Seq<Seq<Seq<char>>>,
    /// Whether a page could not be fetched or parsed.
    pub failed: bool,
}

/// The next link of the chain: the pending operation is carried out
/// against the site.
pub open spec fn advance(
    site: spec_fn(Seq<char>) -> Result<Seq<char>, FetchError>,
    progress: Progress,
) -> Progress {
    match progress.pending {
        Pending::Fetch(path) => match site(path) {
            Ok(content) => Progress { pending: Pending::Parse(path, content), ..progress },
            Err(_) => Progress { pending: Pending::Nothing, failed: true, ..progress },
        },
        Pending::Parse(path, content) => match parse_spec(path, outline_of(content)) {
            Ok(parsed) => Progress {
                pending: match parsed.next_path {
                    Some(next) => Pending::Fetch(next),
                    None => Pending::Nothing,
                },
                batches: progress.batches.push(parsed.entries),
                ..progress
            },
            Err(_) => Progress { pending: Pending::Nothing, failed: true, ..progress },
        },
        Pending::Nothing => progress,
    }
}

/// The chain of `site` from `start`, followed for `steps` operations.
pub open spec fn chain(
    site: spec_fn(Seq<char>) -> Result<Seq<char>, FetchError>,
    start: Seq<char>,
    steps: nat,
) -> Progress
    decreases steps,
{
    if steps == 0 {
        Progress { pending: Pending::Fetch(start), batches: Seq::empty(), failed: false }
    } else {
        advance(site, chain(site, start, (steps - 1) as nat))
    }
}

/// The operation that `action` asks for.
pub open spec fn asked(action: Action) -> Pending {
    match action {
        Action::Fetch(path) => Pending::Fetch(path@),
        Action::Parse(page) => Pending::Parse(page.path@, page.content@),
        _ => Pending::Nothing,
    }
}

/// Whether `event` is the true outcome of the operation that `action`
/// asked for: the page or the failure that the site answers with, or the
/// result of parsing the page that was handed out.
pub open spec fn answers(
    site: spec_fn(Seq<char>) -> Result<Seq<char>, FetchError>,
    action: Action,
    event: Event,
) -> bool {
    match (action, event) {
        (Action::Fetch(path), Event::Fetched(Ok(page))) => page.path@ == path@ && site(path@)
            == Ok::<Seq<char>, FetchError>(page.content@),
        (Action::Fetch(path), Event::Fetched(Err(error))) => site(path@) is Err,
        (Action::Parse(page), Event::Parsed(outcome)) => parsed_view(outcome) == parse_spec(
            page.path@,
            outline_of(page.content@),
        ),
        _ => false,
    }
}

/// The action that stands open after `events`: the request for the first
/// page, or the answer to the last event.
pub open spec fn open_action(start: String, events: Seq<Event>) -> Action {
    if events.len() == 0 {
        Action::Fetch(start)
    } else {
        run(started(), events.drop_last()).action(events.last())
    }
}

/// Whether every one of `events` answers the action that stood open before
/// it, for a crawl of `site` that began at `start`.
pub open spec fn faithful(
    site: spec_fn(Seq<char>) -> Result<Seq<char>, FetchError>,
    start: String,
    events: Seq<Event>,
) -> bool
    decreases events.len(),
{
    events.len() == 0 || (faithful(site, start, events.drop_last()) && answers(
        site,
        open_action(start, events.drop_last()),
        events.last(),
    ))
}

/// Once nothing is pending, the chain stays as it is.
pub proof fn lemma_chain_rests(
    site: spec_fn(Seq<char>) -> Result<Seq<char>, FetchError>,
    start: Seq<char>,
    steps: nat,
    later: nat,
)
    requires
        chain(site, start, steps).pending is Nothing,
        steps <= later,
    ensures
        chain(site, start, later) == chain(site, start, steps),
    decreases later,
{
    if steps < later {
        lemma_chain_rests(site, start, steps, (later - 1) as nat);
    }
}

/// A faithful crawl follows the chain of its site step by step: after any
/// number of events it has collected the batches of the chain, it has
/// failed exactly if the chain has, and the operation it waits for is the
/// one that the chain has pending. In particular the crawl is over exactly
/// when the chain has come to rest, so it ends if and only if the chain is
/// finite.
pub proof fn lemma_crawl_follows_chain(
    site: spec_fn(Seq<char>) -> Result<Seq<char>, FetchError>,
    start: String,
    events: Seq<Event>,
)
    requires
        faithful(site, start, events),
    ensures
        run(started(), events).batches == chain(site, start@, events.len()).batches,
        run(started(), events).failure is Some <==> chain(site, start@, events.len()).failed,
        asked(open_action(start, events)) == chain(site, start@, events.len()).pending,
        run(started(), events).status() != Status::Running <==> chain(
            site,
            start@,
            events.len(),
        ).pending is Nothing,
        chain(site, start@, events.len()).failed ==> chain(
            site,
            start@,
            events.len(),
        ).pending is Nothing,
        run(started(), events).fetching == if chain(site, start@, events.len()).pending
            is Fetch {
            1nat
        } else {
            0nat
        },
        run(started(), events).parsing == if chain(site, start@, events.len()).pending
            is Parse {
            1nat
        } else {
            0nat
        },
    decreases events.len(),
{
    if events.len() > 0 {
        lemma_crawl_follows_chain(site, start, events.drop_last());
    }
}

/// Crawling is repeatable: two faithful crawls of the same site from the
/// same start that have both come to their end agree on whether the crawl
/// failed and have collected the same batches in the same order, and so
/// the same multiset of entries.
pub proof fn lemma_crawl_is_repeatable(
    site: spec_fn(Seq<char>) -> Result<Seq<char>, FetchError>,
    start: String,
    first: Seq<Event>,
    second: Seq<Event>,
)
    requires
        faithful(site, start, first),
        faithful(site, start, second),
        run(started(), first).status() != Status::Running,
        run(started(), second).status() != Status::Running,
    ensures
        run(started(), first).batches == run(started(), second).batches,
        run(started(), first).status() == run(started(), second).status(),
        entry_bag(run(started(), first).batches) == entry_bag(run(started(), second).batches),
{
    lemma_crawl_follows_chain(site, start, first);
    lemma_crawl_follows_chain(site, start, second);
    if first.len() <= second.len() {
        lemma_chain_rests(site, start@, first.len(), second.len());
    } else {
        lemma_chain_rests(site, start@, second.len(), first.len());
    }
}

} // verus!
