//! Whole runs of the sequential scraper against a site.
//!
//! A site is modelled as a function from paths to what loading them
//! yields: the markup of the page, or the reason why it could not be
//! loaded. One round of the scraper is a function of its state and of what
//! was loaded, so a site fixes the whole course of a scrape; the laws of
//! this module say so.

use crate::markup::{outline_of, OutlineView};
use crate::page::parse_spec;
use crate::scraper::{after_round, goes_on, well_loaded, ScrapeStatusView, ScraperView};
use vstd::prelude::*;

verus! {

/// What loading the page at `path` hands to the scraper: the outline of
/// the page's markup, or a failure with the site's reason.
pub open spec fn answer(
    site: spec_fn(Seq<char>) -> Result<Seq<char>, Seq<char>>,
    path: Seq<char>,
) -> Result<OutlineView, ScrapeStatusView> {
    match site(path) {
        Ok(markup) => Ok(outline_of(markup)),
        Err(reason) => Err(ScrapeStatusView::Failed(reason)),
    }
}

/// The state of a scrape of `site` after `rounds` rounds from `state`.
pub open spec fn scraped(
    site: spec_fn(Seq<char>) -> Result<Seq<char>, Seq<char>>,
    state: ScraperView,
    rounds: nat,
) -> ScraperView
    decreases rounds,
{
    if rounds == 0 {
        state
    } else {
        let before = scraped(site, state, (rounds - 1) as nat);
        after_round(before, answer(site, before.path))
    }
}

/// The state that the rounds on `loads`, taken in order, lead to from
/// `state`.
pub open spec fn after_rounds(
    state: ScraperView,
    loads: Seq<Result<OutlineView, ScrapeStatusView>>,
) -> ScraperView
    decreases loads.len(),
{
    if loads.len() == 0 {
        state
    } else {
        after_round(after_rounds(state, loads.drop_last()), loads.last())
    }
}

/// Whether `loads` is what a driver hands to the scraper in one scrape of
/// `site`: every round is made while the scrape is still going on, and
/// what it is given is the site's answer for the path that the scraper
/// stands at.
pub open spec fn driven(
    site: spec_fn(Seq<char>) -> Result<Seq<char>, Seq<char>>,
    state: ScraperView,
    loads: Seq<Result<OutlineView, ScrapeStatusView>>,
) -> bool
    decreases loads.len(),
{
    loads.len() == 0 || {
        let before = after_rounds(state, loads.drop_last());
        &&& driven(site, state, loads.drop_last())
        &&& before.status == ScrapeStatusView::NotStarted
        &&& loads.last() == answer(site, before.path)
    }
}

/// A round on a fit load ends the scrape or leaves it going: the scrape
/// goes on exactly if the status is still `NotStarted` afterwards. It ends
/// with success exactly if the page was loaded, parses and names no
/// successor; a load that failed and a page that does not parse end it
/// with a failure, and a round that ends with a failure adds no words.
pub proof fn lemma_round_ends_or_goes_on(
    state: ScraperView,
    loaded: Result<OutlineView, ScrapeStatusView>,
)
    requires
        well_loaded(loaded),
        state.status == ScrapeStatusView::NotStarted,
    ensures
        goes_on(state, loaded) <==> after_round(state, loaded).status
            == ScrapeStatusView::NotStarted,
        loaded is Err ==> after_round(state, loaded).status is Failed,
        after_round(state, loaded).status is Success <==> (loaded matches Ok(page) && (parse_spec(
            state.path,
            page,
        ) matches Ok(parsed) && parsed.next_path is None)),
        loaded matches Ok(page) && parse_spec(state.path, page) is Err ==> after_round(
            state,
            loaded,
        ).status is Failed,
        after_round(state, loaded).status is Failed ==> after_round(state, loaded).words
            == state.words,
{
}

/// Once a scrape has ended, further rounds change nothing.
pub proof fn lemma_scrape_rests(
    site: spec_fn(Seq<char>) -> Result<Seq<char>, Seq<char>>,
    state: ScraperView,
    rounds: nat,
    later: nat,
)
    requires
        scraped(site, state, rounds).status != ScrapeStatusView::NotStarted,
        rounds <= later,
    ensures
        scraped(site, state, later) == scraped(site, state, rounds),
    decreases later,
{
    if rounds < later {
        lemma_scrape_rests(site, state, rounds, (later - 1) as nat);
    }
}

/// A driven scrape follows the site round by round: its state after any
/// number of rounds is the one that the site fixes, every load it was
/// given is fit for the scraper, and before each of its rounds the scrape
/// was still going on.
pub proof fn lemma_scrape_follows_site(
    site: spec_fn(Seq<char>) -> Result<Seq<char>, Seq<char>>,
    state: ScraperView,
    loads: Seq<Result<OutlineView, ScrapeStatusView>>,
)
    requires
        driven(site, state, loads),
    ensures
        after_rounds(state, loads) == scraped(site, state, loads.len()),
        forall|i: int| 0 <= i < loads.len() ==> well_loaded(#[trigger] loads[i]),
        forall|rounds: nat|
            rounds < loads.len() ==> (#[trigger] scraped(site, state, rounds)).status
                == ScrapeStatusView::NotStarted,
    decreases loads.len(),
{
    if loads.len() > 0 {
        let front = loads.drop_last();
        lemma_scrape_follows_site(site, state, front);
        assert forall|i: int| 0 <= i < loads.len() implies well_loaded(#[trigger] loads[i]) by {
            if i < front.len() {
                assert(loads[i] == front[i]);
            }
        }
    }
}

/// Scraping is repeatable, and takes as many rounds as the site has pages
/// to give: two driven scrapes of the same site from the same state that
/// have both come to their end took the same number of rounds and ended
/// in the same state, with the same words in the same order and the same
/// status.
pub proof fn lemma_scrape_is_repeatable(
    site: spec_fn(Seq<char>) -> Result<Seq<char>, Seq<char>>,
    state: ScraperView,
    first: Seq<Result<OutlineView, ScrapeStatusView>>,
    second: Seq<Result<OutlineView, ScrapeStatusView>>,
)
    requires
        driven(site, state, first),
        driven(site, state, second),
        after_rounds(state, first).status != ScrapeStatusView::NotStarted,
        after_rounds(state, second).status != ScrapeStatusView::NotStarted,
    ensures
        first.len() == second.len(),
        after_rounds(state, first) == after_rounds(state, second),
        after_rounds(state, first).words.to_multiset() == after_rounds(
            state,
            second,
        ).words.to_multiset(),
{
    lemma_scrape_follows_site(site, state, first);
    lemma_scrape_follows_site(site, state, second);
    if first.len() < second.len() {
        assert(scraped(site, state, first.len()).status == ScrapeStatusView::NotStarted);
    } else if second.len() < first.len() {
        assert(scraped(site, state, second.len()).status == ScrapeStatusView::NotStarted);
    }
}

} // verus!
