use wiki_words::alphabet::Alphabet;
use wiki_words::markup::{Nav, Outline};
use wiki_words::scraper::{ScrapeStatus, Scraper};

fn scraper() -> Scraper {
    Scraper::new(Alphabet::new().expect("the entry pattern compiles"))
}

fn owned(words: &[&str]) -> Vec<String> {
    words.iter().map(|word| word.to_string()).collect()
}

fn listing(words: &[&str], next: Option<&str>) -> String {
    let mut content = String::from("<ul class=\"mw-allpages-chunk\">");
    for word in words {
        content.push_str(&format!("<li><a>{}</a></li>", word));
    }
    content.push_str("</ul><div class=\"mw-allpages-nav\"><a href=\"/back\">הדף הקודם</a>");
    if let Some(next) = next {
        content.push_str(&format!(" | <a href=\"{}\">הדף הבא</a>", next));
    }
    content.push_str("</div>");
    content
}

#[test]
fn a_new_scraper_stands_before_the_first_page() {
    let scraper = scraper();
    assert_eq!(scraper.status(), ScrapeStatus::NotStarted);
    assert!(scraper.words().is_empty());
    assert_eq!(scraper.url(), "https://he.wiktionary.org/wiki/מיוחד:כל_הדפים/א");
}

#[test]
fn a_page_with_a_successor_moves_the_scraper_on() {
    let mut scraper = scraper();
    assert!(scraper.scrape(Ok(listing(&["אב", "a", "גד"], Some("/wiki/next")))));
    assert_eq!(scraper.status(), ScrapeStatus::NotStarted);
    assert_eq!(scraper.words(), owned(&["אב", "גד"]));
    assert_eq!(scraper.url(), "https://he.wiktionary.org/wiki/next");
}

#[test]
fn the_target_of_the_next_link_is_decoded() {
    let mut scraper = scraper();
    assert!(scraper.scrape(Ok(listing(&[], Some("/wiki/%D7%90")))));
    assert_eq!(scraper.url(), "https://he.wiktionary.org/wiki/א");
}

#[test]
fn parse_page_returns_the_decoded_target() {
    let mut scraper = scraper();
    let content = "<ul class='mw-allpages-chunk'></ul>\
                   <div class='mw-allpages-nav'><a href='/wiki/%D7%90%D7%91'>הדף הבא</a></div>";
    assert_eq!(scraper.parse_page(content), Ok("/wiki/אב".to_string()));
    assert!(scraper.words().is_empty());
}

#[test]
fn a_target_that_does_not_decode_fails_the_scrape() {
    let mut scraper = scraper();
    assert!(scraper.scrape(Ok(listing(&["אב"], Some("/2")))));
    assert!(!scraper.scrape(Ok(listing(&["גד"], Some("/wiki/%FF")))));
    assert_eq!(scraper.status(), ScrapeStatus::Failed("failed to decode href at /2".to_string()));
    assert_eq!(scraper.words(), owned(&["אב"]));
}

#[test]
fn the_last_page_ends_the_scrape_with_success() {
    let mut scraper = scraper();
    assert!(scraper.scrape(Ok(listing(&["אב"], Some("/2")))));
    assert!(!scraper.scrape(Ok(listing(&["גד", "ה"], None))));
    assert_eq!(scraper.status(), ScrapeStatus::Success);
    assert_eq!(scraper.words(), owned(&["אב", "גד"]));
    assert_eq!(scraper.url(), "https://he.wiktionary.org/2");
}

#[test]
fn a_failed_load_ends_the_scrape_with_its_status() {
    let mut scraper = scraper();
    let failure = ScrapeStatus::Failed("connection refused".to_string());
    assert!(!scraper.scrape(Err(failure.clone())));
    assert_eq!(scraper.status(), failure);
    assert!(scraper.words().is_empty());
}

#[test]
fn a_finished_scraper_ignores_further_pages() {
    let mut scraper = scraper();
    assert!(!scraper.scrape(Ok(listing(&["אב"], None))));
    assert!(!scraper.scrape(Ok(listing(&["גד"], Some("/2")))));
    assert!(!scraper.scrape(Err(ScrapeStatus::Failed("late".to_string()))));
    assert_eq!(scraper.status(), ScrapeStatus::Success);
    assert_eq!(scraper.words(), owned(&["אב"]));
}

#[test]
fn a_page_without_the_words_table_fails_the_scrape() {
    let mut scraper = scraper();
    assert!(!scraper.scrape(Ok("<p>nothing</p>".to_string())));
    assert_eq!(
        scraper.status(),
        ScrapeStatus::Failed(
            "failed to find words table in page at /wiki/מיוחד:כל_הדפים/א".to_string()
        )
    );
}

#[test]
fn a_page_without_the_nav_region_fails_the_scrape_and_adds_no_words() {
    let mut scraper = scraper();
    assert!(scraper.scrape(Ok(listing(&["אב"], Some("/2")))));
    let content = "<ul class=\"mw-allpages-chunk\"><li><a>גד</a></li></ul>";
    assert!(!scraper.scrape(Ok(content.to_string())));
    assert_eq!(
        scraper.status(),
        ScrapeStatus::Failed("failed to find nav div in page at /2".to_string())
    );
    assert_eq!(scraper.words(), owned(&["אב"]));
}

#[test]
fn parse_page_adds_no_words_when_the_page_does_not_parse() {
    let mut scraper = scraper();
    assert_eq!(scraper.parse_page(&listing(&["אב"], Some("/2"))), Ok("/2".to_string()));
    let pages = [
        "<ul class=\"mw-allpages-chunk\"><li><a>גד</a></li></ul>",
        "<ul class=\"mw-allpages-chunk\"><li><a>גד</a></li></ul>\
         <div class=\"mw-allpages-nav\"></div>",
        "<ul class=\"mw-allpages-chunk\"><li><a>גד</a></li></ul>\
         <div class=\"mw-allpages-nav\"><a>הדף הבא</a></div>",
        "<ul class=\"mw-allpages-chunk\"><li><a>גד</a></li></ul>\
         <div class=\"mw-allpages-nav\"><a href=\"%FF\">הדף הבא</a></div>",
        "<div class=\"mw-allpages-nav\"><a href=\"/3\">הדף הבא</a></div>",
    ];
    for page in pages {
        assert!(matches!(scraper.parse_page(page), Err(ScrapeStatus::Failed(_))));
        assert_eq!(scraper.words(), owned(&["אב"]));
    }
}

#[test]
fn the_last_page_adds_its_words() {
    let mut scraper = scraper();
    assert_eq!(scraper.parse_page(&listing(&["אב", "גד"], None)), Err(ScrapeStatus::Success));
    assert_eq!(scraper.words(), owned(&["אב", "גד"]));
}

#[test]
fn a_failed_second_load_leaves_a_failure_and_the_words_of_the_first_page() {
    let mut scraper = scraper();
    assert!(scraper.scrape(Ok(listing(&["אב"], Some("/2")))));
    assert!(!scraper.scrape(Err(ScrapeStatus::Failed("status 404".to_string()))));
    assert_eq!(scraper.status(), ScrapeStatus::Failed("status 404".to_string()));
    assert_eq!(scraper.words(), owned(&["אב"]));
}

#[test]
fn two_scrapes_of_the_same_pages_end_alike() {
    let pages = [listing(&["אב", "גד"], Some("/2")), listing(&["הו"], None)];
    let mut first = scraper();
    let mut second = scraper();
    for page in &pages {
        first.scrape(Ok(page.clone()));
        second.scrape(Ok(page.clone()));
    }
    assert_eq!(first.status(), second.status());
    assert_eq!(first.words(), second.words());
    assert_eq!(first.url(), second.url());
}

#[test]
fn parse_page_reports_an_empty_nav_region() {
    let mut scraper = scraper();
    let content = "<ul class=\"mw-allpages-chunk\"></ul><div class=\"mw-allpages-nav\"></div>";
    assert_eq!(
        scraper.parse_page(content),
        Err(ScrapeStatus::Failed(
            "failed to get a element to next link at /wiki/מיוחד:כל_הדפים/א".to_string()
        ))
    );
    assert_eq!(scraper.status(), ScrapeStatus::NotStarted);
}

#[test]
fn parse_page_reports_a_next_link_without_a_target() {
    let mut scraper = scraper();
    let content = "<ul class=\"mw-allpages-chunk\"></ul>\
                   <div class=\"mw-allpages-nav\"><a>הדף הבא</a></div>";
    assert_eq!(
        scraper.parse_page(content),
        Err(ScrapeStatus::Failed(
            "failed to get href to next link at /wiki/מיוחד:כל_הדפים/א".to_string()
        ))
    );
}

#[test]
fn parse_page_returns_the_target_and_leaves_path_and_status_alone() {
    let mut scraper = scraper();
    assert_eq!(scraper.parse_page(&listing(&["אב"], Some("/2"))), Ok("/2".to_string()));
    assert_eq!(scraper.status(), ScrapeStatus::NotStarted);
    assert_eq!(scraper.url(), "https://he.wiktionary.org/wiki/מיוחד:כל_הדפים/א");
    assert_eq!(scraper.words(), owned(&["אב"]));
}

#[test]
fn parse_page_reports_the_last_page_as_success() {
    let mut scraper = scraper();
    assert_eq!(scraper.parse_page(&listing(&["אב"], None)), Err(ScrapeStatus::Success));
}

#[test]
fn absorb_works_on_plain_values() {
    let mut scraper = scraper();
    let page = Outline {
        candidates: Some(owned(&["אב", "1", "גד"])),
        nav: Nav::Link { text: "הדף הבא".to_string(), href: Some("/n".to_string()) },
    };
    assert_eq!(scraper.absorb(page), Ok("/n".to_string()));
    assert_eq!(scraper.words(), owned(&["אב", "גד"]));
}

#[test]
fn advance_works_on_plain_values() {
    let mut scraper = scraper();
    let page = Outline {
        candidates: Some(owned(&["אב"])),
        nav: Nav::Link { text: "סוף".to_string(), href: None },
    };
    assert!(!scraper.advance(Ok(page)));
    assert_eq!(scraper.status(), ScrapeStatus::Success);
    assert_eq!(scraper.words(), owned(&["אב"]));
}

#[test]
fn a_whole_scrape_collects_the_words_of_every_page() {
    let pages = [
        ("/wiki/מיוחד:כל_הדפים/א", listing(&["אב", "גד"], Some("/2"))),
        ("/2", listing(&["הו"], Some("/3"))),
        ("/3", listing(&["זח", "טי"], None)),
    ];
    let mut scraper = scraper();
    let mut loads = 0;
    loop {
        let url = scraper.url();
        let loaded = match pages.iter().find(|(path, _)| url.ends_with(path)) {
            Some((_, content)) => Ok(content.clone()),
            None => Err(ScrapeStatus::Failed(format!("no page at {}", url))),
        };
        loads += 1;
        if !scraper.scrape(loaded) {
            break;
        }
    }
    assert_eq!(loads, 3);
    assert_eq!(scraper.status(), ScrapeStatus::Success);
    assert_eq!(scraper.words(), owned(&["אב", "גד", "הו", "זח", "טי"]));
}
