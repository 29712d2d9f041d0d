use std::collections::VecDeque;
use wiki_words::alphabet::Alphabet;
use wiki_words::crawl::{Action, Crawl, CrawlError, Event, Status};
use wiki_words::fetch::{accept_response, FetchError};
use wiki_words::page::{parse, Page, ParseError, ParsedPage};
use wiki_words::sink::flatten;

fn owned(words: &[&str]) -> Vec<String> {
    words.iter().map(|word| word.to_string()).collect()
}

fn listing(words: &[&str], next: Option<&str>) -> String {
    let mut content = String::from("<ul class=\"mw-allpages-chunk\">");
    for word in words {
        content.push_str(&format!("<li><a href=\"/wiki/{}\">{}</a></li>", word, word));
    }
    content.push_str("</ul><div class=\"mw-allpages-nav\"><a href=\"/back\">הדף הקודם</a>");
    if let Some(next) = next {
        content.push_str(&format!(" | <a href=\"{}\">הדף הבא</a>", next));
    }
    content.push_str("</div>");
    content
}

/// A site held in memory: for each path the status and the body it answers with.
struct Site {
    pages: Vec<(String, u16, String)>,
}

impl Site {
    fn fetch(&self, path: &str) -> Result<Page, FetchError> {
        match self.pages.iter().find(|(at, _, _)| at == path) {
            Some((_, status, body)) => accept_response(path.to_string(), *status, Ok(body.clone())),
            None => accept_response(path.to_string(), 404, Ok(String::new())),
        }
    }
}

struct Tally {
    fetches: usize,
    parses: usize,
    result: Option<Result<Vec<Vec<String>>, CrawlError>>,
}

/// Drives a crawl over a site in memory. Pending operations are completed
/// from the front or from the back of the queue, as `newest_first` says.
fn drive(site: &Site, start: &str, newest_first: bool) -> Tally {
    let alphabet = Alphabet::new().expect("the entry pattern compiles");
    let (mut crawl, first) = Crawl::start(start.to_string());
    let mut pending = VecDeque::from(vec![first]);
    let mut tally = Tally { fetches: 0, parses: 0, result: None };
    loop {
        let next = if newest_first { pending.pop_back() } else { pending.pop_front() };
        let event = match next {
            Some(Action::Fetch(path)) => {
                tally.fetches += 1;
                Event::Fetched(site.fetch(&path))
            }
            Some(Action::Parse(page)) => {
                tally.parses += 1;
                Event::Parsed(parse(&alphabet, page))
            }
            Some(other) => panic!("{:?} is no operation", other),
            None => break,
        };
        match crawl.on_event(event) {
            Action::Wait => {}
            Action::Finish | Action::Abort => break,
            operation => pending.push_back(operation),
        }
    }
    tally.result = crawl.finish();
    tally
}

fn three_pages() -> Site {
    Site {
        pages: vec![
            ("/1".to_string(), 200, listing(&["אב", "א", "גד"], Some("/2"))),
            ("/2".to_string(), 200, listing(&["הו", "x1", "זח"], Some("/%D7%90"))),
            ("/א".to_string(), 200, listing(&["טי", "טי"], None)),
        ],
    }
}

#[test]
fn a_chain_of_three_pages_takes_three_fetches_and_three_parses() {
    let tally = drive(&three_pages(), "/1", false);
    assert_eq!(tally.fetches, 3);
    assert_eq!(tally.parses, 3);
    let batches = tally.result.expect("the crawl is over").expect("the crawl succeeds");
    assert_eq!(batches, vec![owned(&["אב", "גד"]), owned(&["הו", "זח"]), owned(&["טי", "טי"])]);
}

#[test]
fn the_entries_of_a_chain_are_the_union_of_its_pages() {
    for newest_first in [false, true] {
        let tally = drive(&three_pages(), "/1", newest_first);
        let mut entries = flatten(tally.result.expect("over").expect("succeeds"));
        entries.sort();
        let mut expected = owned(&["אב", "גד", "הו", "זח", "טי", "טי"]);
        expected.sort();
        assert_eq!(entries, expected);
    }
}

#[test]
fn a_failing_second_fetch_fails_the_crawl() {
    let site = Site {
        pages: vec![
            ("/1".to_string(), 200, listing(&["אב"], Some("/2"))),
            ("/2".to_string(), 503, String::from("busy")),
        ],
    };
    let tally = drive(&site, "/1", false);
    assert_eq!(tally.fetches, 2);
    assert_eq!(tally.parses, 1);
    assert_eq!(tally.result, Some(Err(CrawlError::Fetch(FetchError::Status(503)))));
}

#[test]
fn a_page_that_does_not_parse_fails_the_crawl() {
    let site = Site {
        pages: vec![
            ("/1".to_string(), 200, listing(&["אב"], Some("/2"))),
            ("/2".to_string(), 200, String::from("<p>moved</p>")),
        ],
    };
    let tally = drive(&site, "/1", false);
    assert_eq!(
        tally.result,
        Some(Err(CrawlError::Parse(ParseError::MissingEntriesContainer("/2".to_string()))))
    );
}

#[test]
fn crawling_twice_gives_the_same_entries() {
    let first = drive(&three_pages(), "/1", false);
    let second = drive(&three_pages(), "/1", true);
    let mut first = flatten(first.result.expect("over").expect("succeeds"));
    let mut second = flatten(second.result.expect("over").expect("succeeds"));
    first.sort();
    second.sort();
    assert_eq!(first, second);
}

#[test]
fn a_crawl_starts_with_one_fetch_in_flight() {
    let (crawl, action) = Crawl::start("/start".to_string());
    assert_eq!(action, Action::Fetch("/start".to_string()));
    assert_eq!(crawl.fetching(), 1);
    assert_eq!(crawl.parsing(), 0);
    assert_eq!(crawl.status(), Status::Running);
    assert_eq!(crawl.finish(), None);
}

#[test]
fn a_fetched_page_is_handed_on_to_be_parsed() {
    let (mut crawl, _) = Crawl::start("/start".to_string());
    let page = Page { path: "/start".to_string(), content: "body".to_string() };
    assert_eq!(crawl.on_event(Event::Fetched(Ok(page.clone()))), Action::Parse(page));
    assert_eq!((crawl.fetching(), crawl.parsing()), (0, 1));
    assert_eq!(crawl.status(), Status::Running);
}

#[test]
fn a_parsed_page_with_a_successor_asks_for_it() {
    let (mut crawl, _) = Crawl::start("/1".to_string());
    crawl.on_event(Event::Fetched(Ok(Page { path: "/1".to_string(), content: String::new() })));
    let parsed = ParsedPage { entries: owned(&["אב"]), next_path: Some("/2".to_string()) };
    assert_eq!(crawl.on_event(Event::Parsed(Ok(parsed))), Action::Fetch("/2".to_string()));
    assert_eq!((crawl.fetching(), crawl.parsing()), (1, 0));
    assert_eq!(crawl.status(), Status::Running);
    assert_eq!(crawl.finish(), None);
}

#[test]
fn the_last_page_finishes_the_crawl() {
    let (mut crawl, _) = Crawl::start("/1".to_string());
    crawl.on_event(Event::Fetched(Ok(Page { path: "/1".to_string(), content: String::new() })));
    let parsed = ParsedPage { entries: owned(&["אב", "גד"]), next_path: None };
    assert_eq!(crawl.on_event(Event::Parsed(Ok(parsed))), Action::Finish);
    assert_eq!((crawl.fetching(), crawl.parsing()), (0, 0));
    assert_eq!(crawl.status(), Status::Succeeded);
    assert_eq!(crawl.finish(), Some(Ok(vec![owned(&["אב", "גד"])])));
}

#[test]
fn a_page_without_entries_still_counts_as_a_batch() {
    let (mut crawl, _) = Crawl::start("/1".to_string());
    crawl.on_event(Event::Fetched(Ok(Page { path: "/1".to_string(), content: String::new() })));
    crawl.on_event(Event::Parsed(Ok(ParsedPage { entries: Vec::new(), next_path: None })));
    assert_eq!(crawl.finish(), Some(Ok(vec![Vec::new()])));
}

#[test]
fn a_failed_fetch_aborts_the_crawl() {
    let (mut crawl, _) = Crawl::start("/1".to_string());
    let error = FetchError::Timeout("too slow".to_string());
    assert_eq!(crawl.on_event(Event::Fetched(Err(error.clone()))), Action::Abort);
    assert_eq!(crawl.status(), Status::Failed);
    assert_eq!((crawl.fetching(), crawl.parsing()), (0, 0));
    assert_eq!(crawl.finish(), Some(Err(CrawlError::Fetch(error))));
}

#[test]
fn a_failed_parse_aborts_the_crawl_and_drops_what_was_collected() {
    let (mut crawl, _) = Crawl::start("/1".to_string());
    crawl.on_event(Event::Fetched(Ok(Page { path: "/1".to_string(), content: String::new() })));
    let parsed = ParsedPage { entries: owned(&["אב"]), next_path: Some("/2".to_string()) };
    crawl.on_event(Event::Parsed(Ok(parsed)));
    crawl.on_event(Event::Fetched(Ok(Page { path: "/2".to_string(), content: String::new() })));
    let error = ParseError::MissingNavRegion("/2".to_string());
    assert_eq!(crawl.on_event(Event::Parsed(Err(error.clone()))), Action::Abort);
    assert_eq!(crawl.status(), Status::Failed);
    assert_eq!(crawl.finish(), Some(Err(CrawlError::Parse(error))));
}

#[test]
fn a_broken_connection_aborts_the_crawl() {
    let (mut crawl, _) = Crawl::start("/1".to_string());
    let error = FetchError::Transport("connection reset".to_string());
    assert_eq!(crawl.on_event(Event::Fetched(Err(error.clone()))), Action::Abort);
    assert_eq!(crawl.finish(), Some(Err(CrawlError::Fetch(error))));
}
