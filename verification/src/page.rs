//! Pages and what parsing makes of them.
//!
//! A fetched [`Page`] is turned into a [`ParsedPage`]: the entries it lists
//! and, unless it is the last page of the listing, the path of the page that
//! follows it.

use crate::alphabet::{is_entry, Alphabet};
use crate::markup::{
    entries_class, html_first_with_class, nav_class, outline, outline_of, Nav, NavView, Outline,
    OutlineView,
};
use crate::text::{
    contains, has_no_escape, occurs_in, option_view, percent_decode, percent_decoded, views,
};
use vstd::prelude::*;
use vstd::string::*;

verus! {

/// One fetched page of the listing.
#[derive(Debug, Clone, PartialEq, Eq)]
pub struct Page {
    /// The path the page was fetched from, relative to the site's origin.
    pub path: String,
    /// The body of the page.
    pub content: String,
}

/// What one page contributes to the crawl.
#[derive(Debug, Clone, PartialEq, Eq)]
pub struct ParsedPage {
    /// The entries of the page, in document order.
    pub entries: Vec<String>,
    /// The decoded path of the following page, if there is one.
    pub next_path: Option<String>,
}

/// The mathematical value of a [`ParsedPage`].
pub struct ParsedPageView {
    pub entries: Seq<Seq<char>>,
    pub next_path: Option<Seq<char>>,
}

impl View for ParsedPage {
    type V = ParsedPageView;

    open spec fn view(&self) -> ParsedPageView {
        ParsedPageView { entries: views(self.entries@), next_path: option_view(self.next_path) }
    }
}

/// Why a page could not be parsed. Every variant carries the path of the
/// page.
#[derive(Debug, Clone, PartialEq, Eq)]
pub enum ParseError {
    /// The page has no entries container.
    MissingEntriesContainer(String),
    /// The page has no navigation region.
    MissingNavRegion(String),
    /// The navigation region holds no link.
    MissingNavLink(String),
    /// The link to the next page has no target.
    MissingHref(String),
    /// The target of the link to the next page does not decode to text.
    UndecodableHref(String),
}

/// The mathematical value of a [`ParseError`].
pub enum ParseErrorView {
    MissingEntriesContainer(Seq<char>),
    MissingNavRegion(Seq<char>),
    MissingNavLink(Seq<char>),
    MissingHref(Seq<char>),
    UndecodableHref(Seq<char>),
}

impl View for ParseError {
    type V = ParseErrorView;

    open spec fn view(&self) -> ParseErrorView {
        match *self {
            ParseError::MissingEntriesContainer(path) => ParseErrorView::MissingEntriesContainer(
                path@,
            ),
            ParseError::MissingNavRegion(path) => ParseErrorView::MissingNavRegion(path@),
            ParseError::MissingNavLink(path) => ParseErrorView::MissingNavLink(path@),
            ParseError::MissingHref(path) => ParseErrorView::MissingHref(path@),
            ParseError::UndecodableHref(path) => ParseErrorView::UndecodableHref(path@),
        }
    }
}

impl ParseErrorView {
    /// The path of the page that could not be parsed.
    pub open spec fn path(self) -> Seq<char> {
        match self {
            ParseErrorView::MissingEntriesContainer(path) => path,
            ParseErrorView::MissingNavRegion(path) => path,
            ParseErrorView::MissingNavLink(path) => path,
            ParseErrorView::MissingHref(path) => path,
            ParseErrorView::UndecodableHref(path) => path,
        }
    }

    /// What went wrong, in words.
    pub open spec fn complaint(self) -> Seq<char> {
        match self {
            ParseErrorView::MissingEntriesContainer(_) => "failed to find words table in page"@,
            ParseErrorView::MissingNavRegion(_) => "failed to find nav div in page"@,
            ParseErrorView::MissingNavLink(_) => "failed to get a element to next link"@,
            ParseErrorView::MissingHref(_) => "failed to get href to next link"@,
            ParseErrorView::UndecodableHref(_) => "failed to decode href"@,
        }
    }

    /// The text that describes the failure: the path of the page in
    /// brackets, then what went wrong.
    pub open spec fn description(self) -> Seq<char> {
        "["@ + self.path() + "] "@ + self.complaint()
    }
}

impl ParseError {
    /// The path of the page that could not be parsed.
    pub fn path(&self) -> (path: &String)
        ensures
            path@ == self@.path(),
    {
        match self {
            ParseError::MissingEntriesContainer(path) => path,
            ParseError::MissingNavRegion(path) => path,
            ParseError::MissingNavLink(path) => path,
            ParseError::MissingHref(path) => path,
            ParseError::UndecodableHref(path) => path,
        }
    }

    /// What went wrong, in words.
    pub fn complaint(&self) -> (text: &'static str)
        ensures
            text@ == self@.complaint(),
    {
        match self {
            ParseError::MissingEntriesContainer(_) => "failed to find words table in page",
            ParseError::MissingNavRegion(_) => "failed to find nav div in page",
            ParseError::MissingNavLink(_) => "failed to get a element to next link",
            ParseError::MissingHref(_) => "failed to get href to next link",
            ParseError::UndecodableHref(_) => "failed to decode href",
        }
    }

    /// Describes the failure: the path of the page in brackets, then what
    /// went wrong.
    pub fn describe(&self) -> (text: String)
        ensures
            text@ == self@.description(),
    {
        String::from_str("[").concat(self.path().as_str()).concat("] ").concat(self.complaint())
    }
}

/// The mathematical value of the outcome of parsing a page.
pub open spec fn parsed_view(outcome: Result<ParsedPage, ParseError>) -> Result<
    ParsedPageView,
    ParseErrorView,
> {
    match outcome {
        Ok(parsed) => Ok(parsed@),
        Err(error) => Err(error@),
    }
}

/// The text that marks a link as the one to the next page
/// (the Hebrew for "the next page").
pub open spec fn next_label() -> Seq<char> {
    "\u{5d4}\u{5d3}\u{5e3} \u{5d4}\u{5d1}\u{5d0}"@
}

/// The label that marks the link to the next page.
pub fn label() -> (label: &'static str)
    ensures
        label@ == next_label(),
{
    "\u{5d4}\u{5d3}\u{5e3} \u{5d4}\u{5d1}\u{5d0}"
}

/// The candidates that qualify as entries, in the order in which they came.
pub open spec fn entries_of(candidates: Seq<Seq<char>>) -> Seq<Seq<char>> {
    candidates.filter(|candidate: Seq<char>| is_entry(candidate))
}

/// What the navigation link says about the following page: no next page
/// when the link does not carry the label, otherwise its decoded target.
pub open spec fn next_of(path: Seq<char>, nav: NavView) -> Result<
    Option<Seq<char>>,
    ParseErrorView,
> {
    match nav {
        NavView::Absent => Err(ParseErrorView::MissingNavRegion(path)),
        NavView::Empty => Err(ParseErrorView::MissingNavLink(path)),
        NavView::Link { text, href } => if !occurs_in(next_label(), text) {
            Ok(None)
        } else {
            match href {
                None => Err(ParseErrorView::MissingHref(path)),
                Some(target) => match percent_decoded(target) {
                    None => Err(ParseErrorView::UndecodableHref(path)),
                    Some(decoded) => Ok(Some(decoded)),
                },
            }
        },
    }
}

/// What parsing makes of a page at `path` with the given outline.
pub open spec fn parse_spec(path: Seq<char>, page: OutlineView) -> Result<
    ParsedPageView,
    ParseErrorView,
> {
    match page.candidates {
        None => Err(ParseErrorView::MissingEntriesContainer(path)),
        Some(candidates) => match next_of(path, page.nav) {
            Err(error) => Err(error),
            Ok(next_path) => Ok(ParsedPageView { entries: entries_of(candidates), next_path }),
        },
    }
}

/// Appending one candidate to a list either appends it to the entries of
/// the list or leaves them alone, depending on whether it qualifies.
proof fn lemma_entries_push(candidates: Seq<Seq<char>>, candidate: Seq<char>)
    ensures
        entries_of(candidates.push(candidate)) == if is_entry(candidate) {
            entries_of(candidates).push(candidate)
        } else {
            entries_of(candidates)
        },
{
    reveal(Seq::filter);
    assert(candidates.push(candidate).drop_last() == candidates);
}

/// Keeps the candidates that qualify as entries.
pub fn select_entries(alphabet: &Alphabet, candidates: Vec<String>) -> (entries: Vec<String>)
    ensures
        views(entries@) == entries_of(views(candidates@)),
{
    let mut entries: Vec<String> = Vec::new();
    for word in it: candidates
        invariant
            it.seq() == candidates@,
            views(entries@) == entries_of(views(candidates@).take(it.index() as int)),
    {
        let ghost kept = views(entries@);
        let ghost seen = views(candidates@).take(it.index() as int);
        proof {
            lemma_entries_push(seen, word@);
            assert(views(candidates@).take(it.index() + 1) == seen.push(word@));
        }
        if alphabet.accepts(word.as_str()) {
            entries.push(word);
            assert(views(entries@) == kept.push(word@));
        }
    }
    proof {
        assert(views(candidates@).take(candidates@.len() as int) == views(candidates@));
    }
    entries
}

/// Whether the navigation link carries the label of the link to the next
/// page.
pub open spec fn names_next(nav: NavView) -> bool {
    nav matches NavView::Link { text, .. } && occurs_in(next_label(), text)
}

/// Whether the navigation link names the next page by a target that holds
/// no escape, so that decoding has nothing to do.
pub open spec fn names_next_plainly(nav: NavView) -> bool {
    names_next(nav) && (nav->href matches Some(target) && has_no_escape(target))
}

/// Reads the path of the following page off the navigation link.
///
/// The outcome is what [`next_of`] says. A target without any escape comes
/// back as it stands.
pub fn next_path(path: &str, nav: Nav) -> (next: Result<Option<String>, ParseError>)
    ensures
        match next {
            Ok(target) => next_of(path@, nav@) == Ok::<Option<Seq<char>>, ParseErrorView>(
                option_view(target),
            ),
            Err(error) => next_of(path@, nav@) == Err::<Option<Seq<char>>, ParseErrorView>(
                error@,
            ),
        },
        names_next_plainly(nav@) ==> (next matches Ok(target) && option_view(target)
            == nav@->href),
{
    match nav {
        Nav::Absent => Err(ParseError::MissingNavRegion(String::from_str(path))),
        Nav::Empty => Err(ParseError::MissingNavLink(String::from_str(path))),
        Nav::Link { text, href } => {
            if !contains(text.as_str(), label()) {
                Ok(None)
            } else {
                match href {
                    None => Err(ParseError::MissingHref(String::from_str(path))),
                    Some(target) => match percent_decode(target.as_str()) {
                        None => Err(ParseError::UndecodableHref(String::from_str(path))),
                        Some(decoded) => Ok(Some(decoded)),
                    },
                }
            }
        },
    }
}

/// Turns the outline of the page at `path` into its entries and the path of
/// the page that follows.
///
/// A missing entries container is reported before anything else; the
/// navigation region is examined only after the entries were read.
pub fn parse_outline(alphabet: &Alphabet, path: &str, page: Outline) -> (outcome: Result<
    ParsedPage,
    ParseError,
>)
    ensures
        parsed_view(outcome) == parse_spec(path@, page@),
        page@.candidates is Some && names_next_plainly(page@.nav) ==> (outcome matches Ok(parsed)
            && option_view(parsed.next_path) == page@.nav->href),
{
    let Outline { candidates, nav } = page;
    match candidates {
        None => Err(ParseError::MissingEntriesContainer(String::from_str(path))),
        Some(candidates) => {
            let entries = select_entries(alphabet, candidates);
            match next_path(path, nav) {
                Err(error) => Err(error),
                Ok(next_path) => Ok(ParsedPage { entries, next_path }),
            }
        },
    }
}

/// Parses a fetched page.
///
/// The outcome is what [`parse_spec`] makes of the page's outline. The
/// further clauses spell out what that means case by case:
///
/// * a page without an entries container is rejected with the page's path,
///   whatever else it holds;
/// * a page with an entries container but without a navigation region is
///   rejected with the page's path;
/// * the entries of a parsed page are the candidates that are runs of two
///   or more Hebrew letters, so every entry returned is such a run;
/// * when the last navigation link does not carry the next-page label, the
///   page parses and has no next path;
/// * when the link carries the label and has a target, the page parses
///   exactly if the target percent-decodes to text, and the next path is
///   the decoded target;
/// * a target without any escape is the next path as it stands.
pub fn parse(alphabet: &Alphabet, page: Page) -> (outcome: Result<ParsedPage, ParseError>)
    ensures
        parsed_view(outcome) == parse_spec(page.path@, outline_of(page.content@)),
        html_first_with_class(page.content@, entries_class()) is None ==> parsed_view(outcome)
            == Err::<ParsedPageView, ParseErrorView>(
            ParseErrorView::MissingEntriesContainer(page.path@),
        ),
        html_first_with_class(page.content@, entries_class()) is Some && html_first_with_class(
            page.content@,
            nav_class(),
        ) is None ==> parsed_view(outcome) == Err::<ParsedPageView, ParseErrorView>(
            ParseErrorView::MissingNavRegion(page.path@),
        ),
        outcome matches Ok(parsed) ==> forall|i: int|
            0 <= i < parsed.entries@.len() ==> is_entry(#[trigger] parsed.entries@[i]@),
        outcome matches Ok(parsed) ==> parsed@.entries == entries_of(
            outline_of(page.content@).candidates->0,
        ),
        ({
            let found = outline_of(page.content@);
            found.candidates is Some && found.nav is Link && !names_next(found.nav) ==> (
            outcome matches Ok(parsed) && parsed.next_path is None)
        }),
        ({
            let found = outline_of(page.content@);
            found.candidates is Some && names_next(found.nav) ==> match found.nav->href {
                None => parsed_view(outcome) == Err::<ParsedPageView, ParseErrorView>(
                    ParseErrorView::MissingHref(page.path@),
                ),
                Some(target) => {
                    &&& outcome is Ok <==> percent_decoded(target) is Some
                    &&& outcome matches Ok(parsed) ==> option_view(parsed.next_path)
                        == percent_decoded(target)
                },
            }
        }),
        ({
            let found = outline_of(page.content@);
            found.candidates is Some && names_next_plainly(found.nav) ==> (
            outcome matches Ok(parsed) && option_view(parsed.next_path) == found.nav->href)
        }),
{
    let found = outline(page.content.as_str());
    let outcome = parse_outline(alphabet, page.path.as_str(), found);
    proof {
        if outcome is Ok {
            let parsed = outcome->Ok_0;
            let candidates = outline_of(page.content@).candidates->0;
            assert forall|i: int| 0 <= i < parsed.entries@.len() implies is_entry(
                #[trigger] parsed.entries@[i]@,
            ) by {
                candidates.lemma_filter_pred(|candidate: Seq<char>| is_entry(candidate), i);
                assert(views(parsed.entries@)[i] == parsed.entries@[i]@);
            }
        }
    }
    outcome
}

} // verus!
