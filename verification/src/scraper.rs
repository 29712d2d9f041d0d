//! The sequential scraper: one page at a time, from the first page of the
//! listing to the last.
//!
//! The scraper keeps the path of the page to load next, the words found so
//! far and its status. Its driver loads the page at [`Scraper::url`] and
//! hands the outcome to [`Scraper::scrape`], again and again, until the
//! scraper says that it is done.

use crate::alphabet::Alphabet;
use crate::fetch::start_path;
use crate::markup::{outline, outline_of, Outline, OutlineView};
use crate::page::{names_next_plainly, parse_outline, parse_spec, ParsedPage};
use crate::text::views;
use vstd::prelude::*;
use vstd::string::*;

verus! {

/// How far a scrape has come.
#[derive(Debug, Clone, PartialEq, PartialOrd)]
pub enum ScrapeStatus {
    /// The scrape has not reached its end.
    NotStarted,
    /// The last page of the listing was read.
    Success,
    /// The scrape was given up, for the reason described.
    Failed(String),
}

/// The mathematical value of a [`ScrapeStatus`].
pub enum ScrapeStatusView {
    NotStarted,
    Success,
    Failed(Seq<char>),
}

impl View for ScrapeStatus {
    type V = ScrapeStatusView;

    open spec fn view(&self) -> ScrapeStatusView {
        match *self {
            ScrapeStatus::NotStarted => ScrapeStatusView::NotStarted,
            ScrapeStatus::Success => ScrapeStatusView::Success,
            ScrapeStatus::Failed(reason) => ScrapeStatusView::Failed(reason@),
        }
    }
}

/// The mathematical value of a [`Scraper`].
pub struct ScraperView {
    /// The host the pages are loaded from.
    pub domain: Seq<char>,
    /// The path of the page to load next.
    pub path: Seq<char>,
    /// The words found so far, in the order in which they were found.
    pub words: Seq<Seq<char>>,
    /// How far the scrape has come.
    pub status: ScrapeStatusView,
}

/// The host of the dictionary.
pub open spec fn site_domain() -> Seq<char> {
    "he.wiktionary.org"@
}

/// The state of a scraper that has read nothing yet.
pub open spec fn fresh() -> ScraperView {
    ScraperView {
        domain: site_domain(),
        path: start_path(),
        words: Seq::empty(),
        status: ScrapeStatusView::NotStarted,
    }
}

/// The description of a failure: what went wrong, and at which path.
pub open spec fn failure_text(what: Seq<char>, path: Seq<char>) -> Seq<char> {
    what + " at "@ + path
}

/// The words after a page was read: a page that parses contributes its
/// entries, and a page that does not parse contributes nothing.
pub open spec fn words_after(words: Seq<Seq<char>>, path: Seq<char>, page: OutlineView) -> Seq<
    Seq<char>,
> {
    match parse_spec(path, page) {
        Ok(parsed) => words + parsed.entries,
        Err(_) => words,
    }
}

/// Where a page at `path` leads: to the decoded path of the page that
/// follows it, or to the status that ends the scrape. That status is
/// `Success` when the page parses and is the last one, and a failure that
/// says what went wrong and at which path when the page does not parse.
pub open spec fn leads_to(path: Seq<char>, page: OutlineView) -> Result<
    Seq<char>,
    ScrapeStatusView,
> {
    match parse_spec(path, page) {
        Ok(parsed) => match parsed.next_path {
            Some(next) => Ok(next),
            None => Err(ScrapeStatusView::Success),
        },
        Err(error) => Err(ScrapeStatusView::Failed(failure_text(error.complaint(), path))),
    }
}

/// The mathematical value of what reading a page returns.
pub open spec fn lead_view(lead: Result<String, ScrapeStatus>) -> Result<
    Seq<char>,
    ScrapeStatusView,
> {
    match lead {
        Ok(target) => Ok(target@),
        Err(status) => Err(status@),
    }
}

/// Whether what loading has produced is fit to be handed to the scraper: a
/// load that failed comes with a failure status.
pub open spec fn well_loaded(loaded: Result<OutlineView, ScrapeStatusView>) -> bool {
    loaded matches Err(status) ==> status is Failed
}

/// The state after one round of the scrape, given what loading the page at
/// the current path has produced and the outline of what was loaded.
///
/// A scraper that has reached its end stays as it is. Otherwise a failed
/// load ends the scrape with the failure that came with it. A loaded page
/// that parses contributes its words and either moves the scraper on to
/// the next path or, being the last page, ends the scrape with success; a
/// page that does not parse ends the scrape with a failure and leaves the
/// words alone.
pub open spec fn after_round(
    state: ScraperView,
    loaded: Result<OutlineView, ScrapeStatusView>,
) -> ScraperView {
    if state.status != ScrapeStatusView::NotStarted {
        state
    } else {
        match loaded {
            Err(status) => ScraperView { status, ..state },
            Ok(page) => match leads_to(state.path, page) {
                Ok(target) => ScraperView {
                    path: target,
                    words: words_after(state.words, state.path, page),
                    ..state
                },
                Err(status) => ScraperView {
                    status,
                    words: words_after(state.words, state.path, page),
                    ..state
                },
            },
        }
    }
}

/// Whether the scrape goes on after the round.
pub open spec fn goes_on(
    state: ScraperView,
    loaded: Result<OutlineView, ScrapeStatusView>,
) -> bool {
    state.status == ScrapeStatusView::NotStarted && (loaded matches Ok(page) && leads_to(
        state.path,
        page,
    ) is Ok)
}

/// The mathematical value of what loading a page has produced.
pub open spec fn loaded_view(loaded: Result<String, ScrapeStatus>) -> Result<
    OutlineView,
    ScrapeStatusView,
> {
    match loaded {
        Ok(buffer) => Ok(outline_of(buffer@)),
        Err(status) => Err(status@),
    }
}

/// The mathematical value of an outline in place of the loaded text.
pub open spec fn outlined_view(loaded: Result<Outline, ScrapeStatus>) -> Result<
    OutlineView,
    ScrapeStatusView,
> {
    match loaded {
        Ok(page) => Ok(page@),
        Err(status) => Err(status@),
    }
}

/// Describes a failure at `path`.
fn failed(what: &str, path: &str) -> (status: ScrapeStatus)
    ensures
        status@ == ScrapeStatusView::Failed(failure_text(what@, path@)),
{
    ScrapeStatus::Failed(String::from_str(what).concat(" at ").concat(path))
}

/// A scraper of the dictionary's listing.
#[derive(Debug)]
pub struct Scraper {
    domain: String,
    path: String,
    alphabet: Alphabet,
    words: Vec<String>,
    status: ScrapeStatus,
}

impl View for Scraper {
    type V = ScraperView;

    closed spec fn view(&self) -> ScraperView {
        ScraperView {
            domain: self.domain@,
            path: self.path@,
            words: views(self.words@),
            status: self.status@,
        }
    }
}

impl Scraper {
    /// A scraper that stands before the first page of the listing.
    pub fn new(alphabet: Alphabet) -> (scraper: Scraper)
        ensures
            scraper@ == fresh(),
    {
        let scraper = Scraper {
            domain: String::from_str("he.wiktionary.org"),
            path: crate::fetch::first_path(),
            alphabet,
            words: Vec::new(),
            status: ScrapeStatus::NotStarted,
        };
        assert(views(scraper.words@) == Seq::<Seq<char>>::empty());
        scraper
    }

    /// The URL of the page to load next.
    pub fn url(&self) -> (url: String)
        ensures
            url@ == "https://"@ + self@.domain + self@.path,
    {
        String::from_str("https://").concat(self.domain.as_str()).concat(self.path.as_str())
    }

    /// Reads one page, given as its outline. A page that parses adds its
    /// entries to the words and leads to the decoded path of the page that
    /// follows it, or to `Success` when it is the last page. A page that
    /// does not parse adds nothing and leads to a failure. Path and status
    /// of the scraper stay as they are.
    pub fn absorb(&mut self, page: Outline) -> (lead: Result<String, ScrapeStatus>)
        ensures
            final(self)@ == (ScraperView {
                words: words_after(old(self)@.words, old(self)@.path, page@),
                ..old(self)@
            }),
            lead_view(lead) == leads_to(old(self)@.path, page@),
            lead matches Err(status) ==> status@ != ScrapeStatusView::NotStarted,
            parse_spec(old(self)@.path, page@) is Err ==> final(self)@ == old(self)@ && (
            lead matches Err(status) && status@ is Failed),
            page@.candidates is Some && names_next_plainly(page@.nav) ==> (lead matches Ok(target)
                && Some(target@) == page@.nav->href),
    {
        match parse_outline(&self.alphabet, self.path.as_str(), page) {
            Ok(parsed) => {
                let ParsedPage { entries, next_path } = parsed;
                let mut entries = entries;
                let ghost before = views(self.words@);
                let ghost added = views(entries@);
                self.words.append(&mut entries);
                assert(views(self.words@) == before + added);
                match next_path {
                    Some(next) => Ok(next),
                    None => Err(ScrapeStatus::Success),
                }
            },
            Err(error) => Err(failed(error.complaint(), self.path.as_str())),
        }
    }

    /// Reads one page, given as its markup. See [`Scraper::absorb`].
    pub fn parse_page(&mut self, buffer: &str) -> (lead: Result<String, ScrapeStatus>)
        ensures
            final(self)@ == (ScraperView {
                words: words_after(old(self)@.words, old(self)@.path, outline_of(buffer@)),
                ..old(self)@
            }),
            lead_view(lead) == leads_to(old(self)@.path, outline_of(buffer@)),
    {
        self.absorb(outline(buffer))
    }

    /// One round of the scrape, on the outline of what was loaded. Returns
    /// whether the scrape goes on.
    ///
    /// A load that failed has to come with a `Failed` status. The scrape
    /// goes on exactly as long as the status stays `NotStarted`; when the
    /// round ends it, the status is `Success` or `Failed`, and it is
    /// `Failed` whenever the load had failed.
    pub fn advance(&mut self, loaded: Result<Outline, ScrapeStatus>) -> (more: bool)
        requires
            well_loaded(outlined_view(loaded)),
        ensures
            final(self)@ == after_round(old(self)@, outlined_view(loaded)),
            more == goes_on(old(self)@, outlined_view(loaded)),
            more ==> final(self)@.status == ScrapeStatusView::NotStarted,
            !more ==> final(self)@.status != ScrapeStatusView::NotStarted,
            loaded is Err && old(self)@.status == ScrapeStatusView::NotStarted ==> !more
                && final(self)@.status is Failed,
    {
        match self.status {
            ScrapeStatus::NotStarted => {},
            _ => {
                return false;
            },
        }
        match loaded {
            Err(status) => {
                self.status = status;
                false
            },
            Ok(page) => match self.absorb(page) {
                Ok(target) => {
                    self.path = target;
                    true
                },
                Err(status) => {
                    self.status = status;
                    false
                },
            },
        }
    }

    /// One round of the scrape: takes what loading the page at
    /// [`Scraper::url`] has produced, the page's markup or the failure that
    /// says why it could not be loaded, and returns whether the scrape goes
    /// on with another page.
    ///
    /// A load that failed has to come with a `Failed` status. A scraper
    /// that has reached its end ignores what it is given.
    pub fn scrape(&mut self, loaded: Result<String, ScrapeStatus>) -> (more: bool)
        requires
            well_loaded(loaded_view(loaded)),
        ensures
            final(self)@ == after_round(old(self)@, loaded_view(loaded)),
            more == goes_on(old(self)@, loaded_view(loaded)),
            more ==> final(self)@.status == ScrapeStatusView::NotStarted,
            !more ==> final(self)@.status != ScrapeStatusView::NotStarted,
            loaded is Err && old(self)@.status == ScrapeStatusView::NotStarted ==> !more
                && final(self)@.status is Failed,
    {
        match loaded {
            Ok(buffer) => self.advance(Ok(outline(buffer.as_str()))),
            Err(status) => self.advance(Err(status)),
        }
    }

    /// The words found so far.
    pub fn words(&self) -> (words: &[String])
        ensures
            views(words@) == self@.words,
    {
        self.words.as_slice()
    }

    /// How far the scrape has come.
    pub fn status(&self) -> (status: ScrapeStatus)
        ensures
            status@ == self@.status,
    {
        match &self.status {
            ScrapeStatus::NotStarted => ScrapeStatus::NotStarted,
            ScrapeStatus::Success => ScrapeStatus::Success,
            ScrapeStatus::Failed(reason) => ScrapeStatus::Failed(reason.clone()),
        }
    }
}

} // verus!
