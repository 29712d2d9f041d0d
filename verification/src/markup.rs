//! What a listing page's markup holds, as far as the crawler reads it.
//!
//! Parsing HTML and walking the resulting tree is left to the `select`
//! crate. This module names what that crate reports about a given source
//! text and gathers the few facts the crawler needs into an [`Outline`] of
//! plain values: the candidate entries of the page, which are the texts of
//! the first link of each list item, and the last link of its navigation
//! region.

use crate::text::{option_view, views};
use select::document::Document;
use select::predicate::{Class, Name};
use vstd::prelude::*;

verus! {

/// The markup text a document was parsed from. This models where a
/// document came from; the document itself stores only its nodes. The
/// crate makes every document by parsing, so each has such a text.
pub uninterp spec fn document_source(doc: Document) -> Seq<char>;

/// The index of the first node, in document order, of the document parsed
/// from `html` whose `class` attribute lists `class`.
pub uninterp spec fn html_first_with_class(html: Seq<char>, class: Seq<char>) -> Option<usize>;

/// The indices of the children of node `node` of the document parsed from
/// `html`, in document order; empty when there is no such node.
pub uninterp spec fn html_children(html: Seq<char>, node: usize) -> Seq<usize>;

/// Whether node `node` of the document parsed from `html` exists and is an
/// element called `name`.
pub uninterp spec fn html_is_named(html: Seq<char>, node: usize, name: Seq<char>) -> bool;

/// The indices of the elements called `name` among the descendants of node
/// `node` of the document parsed from `html`, in document order; empty when
/// there is no such node.
pub uninterp spec fn html_descendants_named(html: Seq<char>, node: usize, name: Seq<char>) -> Seq<
    usize,
>;

/// The combined text of node `node` and all its descendants in the document
/// parsed from `html`; empty when there is no such node.
pub uninterp spec fn html_text(html: Seq<char>, node: usize) -> Seq<char>;

/// The value of attribute `name` of node `node` of the document parsed from
/// `html`, if the node exists, is an element and carries that attribute.
pub uninterp spec fn html_attr(html: Seq<char>, node: usize, name: Seq<char>) -> Option<Seq<char>>;

#[verifier::external_type_specification]
#[verifier::external_body]
pub struct ExDocument(select::document::Document);

/// `Document::from(&str)`: parses the markup. The document is determined by
/// the text it was parsed from. The parser recurses on the nesting depth of
/// the markup, so markup nested deeply enough to exhaust the stack is beyond
/// what this and the other wrappers speak of.
#[verifier::external_body]
fn parse_html(content: &str) -> (doc: Document)
    ensures
        document_source(doc) == content@,
{
    Document::from(content)
}

/// `Document::find` with the `Class` predicate, taking the first hit: the
/// nodes are tried in document order, and a node matches when one of the
/// whitespace-separated words of its `class` attribute equals `class`.
#[verifier::external_body]
fn first_with_class(doc: &Document, class: &str) -> (found: Option<usize>)
    ensures
        found == html_first_with_class(document_source(*doc), class@),
{
    doc.find(Class(class)).next().map(|node| node.index())
}

/// `Node::children`: the child nodes in document order, each handed out as
/// its index. A node index the document does not have yields no children.
#[verifier::external_body]
fn children(doc: &Document, node: usize) -> (kids: Vec<usize>)
    ensures
        kids@ == html_children(document_source(*doc), node),
{
    match doc.nth(node) {
        Some(parent) => parent.children().map(|child| child.index()).collect(),
        None => Vec::new(),
    }
}

/// `Node::is` with the `Name` predicate: whether the node is an element
/// with the given name. A node index the document does not have is no such
/// element.
#[verifier::external_body]
fn is_named(doc: &Document, node: usize, name: &str) -> (yes: bool)
    ensures
        yes == html_is_named(document_source(*doc), node, name@),
{
    match doc.nth(node) {
        Some(found) => found.is(Name(name)),
        None => false,
    }
}

/// `Node::find` with the `Name` predicate: the elements with the given name
/// among the descendants of the node, in document order, each handed out as
/// its index.
#[verifier::external_body]
fn descendants_named(doc: &Document, node: usize, name: &str) -> (found: Vec<usize>)
    ensures
        found@ == html_descendants_named(document_source(*doc), node, name@),
{
    match doc.nth(node) {
        Some(top) => top.find(Name(name)).map(|hit| hit.index()).collect(),
        None => Vec::new(),
    }
}

/// `Node::text`: the text of the node and of everything below it, joined in
/// document order.
#[verifier::external_body]
fn text(doc: &Document, node: usize) -> (content: String)
    ensures
        content@ == html_text(document_source(*doc), node),
{
    match doc.nth(node) {
        Some(found) => found.text(),
        None => String::new(),
    }
}

/// `Node::attr`: the value of the named attribute of an element node.
#[verifier::external_body]
fn attr(doc: &Document, node: usize, name: &str) -> (value: Option<String>)
    ensures
        option_view(value) == html_attr(document_source(*doc), node, name@),
{
    doc.nth(node).and_then(|found| found.attr(name)).map(|value| value.to_string())
}

/// The `class` value that marks the list of entries on a page.
pub open spec fn entries_class() -> Seq<char> {
    "mw-allpages-chunk"@
}

/// The `class` value that marks the navigation region of a page.
pub open spec fn nav_class() -> Seq<char> {
    "mw-allpages-nav"@
}

/// The element name of a list item.
pub open spec fn item_name() -> Seq<char> {
    "li"@
}

/// The element name of a link.
pub open spec fn link_name() -> Seq<char> {
    "a"@
}

/// The name of the attribute that carries a link's target.
pub open spec fn href_name() -> Seq<char> {
    "href"@
}

/// The last link of a page's navigation region.
#[derive(Debug, Clone, PartialEq, Eq)]
pub enum Nav {
    /// The page has no navigation region.
    Absent,
    /// The navigation region holds no link.
    Empty,
    /// The last link of the navigation region: its text and its target.
    Link { text: String, href: Option<String> },
}

/// The mathematical value of a [`Nav`].
pub enum NavView {
    Absent,
    Empty,
    Link { text: Seq<char>, href: Option<Seq<char>> },
}

impl View for Nav {
    type V = NavView;

    open spec fn view(&self) -> NavView {
        match *self {
            Nav::Absent => NavView::Absent,
            Nav::Empty => NavView::Empty,
            Nav::Link { text, href } => NavView::Link { text: text@, href: option_view(href) },
        }
    }
}

/// What the crawler reads from one page.
#[derive(Debug, Clone, PartialEq, Eq)]
pub struct Outline {
    /// The candidate entries in document order, or `None` when the page has
    /// no entries container. Each list item directly below the container
    /// that holds a link contributes the text of its first link.
    pub candidates: Option<Vec<String>>,
    /// The last link of the navigation region.
    pub nav: Nav,
}

/// The mathematical value of an [`Outline`].
pub struct OutlineView {
    pub candidates: Option<Seq<Seq<char>>>,
    pub nav: NavView,
}

impl View for Outline {
    type V = OutlineView;

    open spec fn view(&self) -> OutlineView {
        OutlineView {
            candidates: match self.candidates {
                Some(list) => Some(views(list@)),
                None => None,
            },
            nav: self.nav@,
        }
    }
}

/// The candidate that the node `item` contributes: when it is a list item
/// with a link below it, the text of the first such link.
pub open spec fn candidate_of(html: Seq<char>, item: usize) -> Option<Seq<char>> {
    let links = html_descendants_named(html, item, link_name());
    if html_is_named(html, item, item_name()) && links.len() > 0 {
        Some(html_text(html, links.first()))
    } else {
        None
    }
}

/// The candidate entries that the nodes `items` contribute, in order.
pub open spec fn candidates_of(html: Seq<char>, items: Seq<usize>) -> Seq<Seq<char>>
    decreases items.len(),
{
    if items.len() == 0 {
        Seq::empty()
    } else {
        let before = candidates_of(html, items.drop_last());
        match candidate_of(html, items.last()) {
            Some(candidate) => before.push(candidate),
            None => before,
        }
    }
}

/// The navigation link of the page with markup `html`: the last link below
/// the first navigation region.
pub open spec fn nav_of(html: Seq<char>) -> NavView {
    match html_first_with_class(html, nav_class()) {
        None => NavView::Absent,
        Some(region) => {
            let links = html_descendants_named(html, region, link_name());
            if links.len() == 0 {
                NavView::Empty
            } else {
                NavView::Link {
                    text: html_text(html, links.last()),
                    href: html_attr(html, links.last(), href_name()),
                }
            }
        },
    }
}

/// The outline of the page with markup `html`.
pub open spec fn outline_of(html: Seq<char>) -> OutlineView {
    OutlineView {
        candidates: match html_first_with_class(html, entries_class()) {
            None => None,
            Some(list) => Some(candidates_of(html, html_children(html, list))),
        },
        nav: nav_of(html),
    }
}

/// Reads the candidate that one child of the entries container contributes.
fn read_candidate(doc: &Document, item: usize) -> (candidate: Option<String>)
    ensures
        option_view(candidate) == candidate_of(document_source(*doc), item),
{
    if !is_named(doc, item, "li") {
        return None;
    }
    let links = descendants_named(doc, item, "a");
    if links.len() == 0 {
        None
    } else {
        Some(text(doc, links[0]))
    }
}

/// Collects the candidate entries below the entries container `list`.
fn collect_candidates(doc: &Document, list: usize) -> (found: Vec<String>)
    ensures
        views(found@) == candidates_of(
            document_source(*doc),
            html_children(document_source(*doc), list),
        ),
{
    let items = children(doc, list);
    let mut found: Vec<String> = Vec::new();
    let mut i: usize = 0;
    while i < items.len()
        invariant
            i <= items.len(),
            views(found@) == candidates_of(document_source(*doc), items@.take(i as int)),
        decreases items.len() - i,
    {
        let ghost before = views(found@);
        if let Some(candidate) = read_candidate(doc, items[i]) {
            found.push(candidate);
            assert(views(found@) == before.push(candidate@));
        }
        proof {
            let upto = items@.take(i + 1);
            assert(upto.drop_last() == items@.take(i as int));
            assert(upto.last() == items@[i as int]);
        }
        i += 1;
    }
    proof {
        assert(items@.take(items.len() as int) == items@);
    }
    found
}

/// Reads the last link of the navigation region.
fn find_nav(doc: &Document) -> (nav: Nav)
    ensures
        nav@ == nav_of(document_source(*doc)),
{
    match first_with_class(doc, "mw-allpages-nav") {
        None => Nav::Absent,
        Some(region) => {
            let links = descendants_named(doc, region, "a");
            if links.len() == 0 {
                Nav::Empty
            } else {
                let link = links[links.len() - 1];
                let text = text(doc, link);
                let href = attr(doc, link, "href");
                Nav::Link { text, href }
            }
        },
    }
}

/// Parses `content` as HTML and gathers its outline.
pub fn outline(content: &str) -> (page: Outline)
    ensures
        page@ == outline_of(content@),
{
    let doc = parse_html(content);
    let candidates = match first_with_class(&doc, "mw-allpages-chunk") {
        None => None,
        Some(list) => Some(collect_candidates(&doc, list)),
    };
    let nav = find_nav(&doc);
    Outline { candidates, nav }
}

} // verus!
