//! Verified core of a crawler that collects Hebrew dictionary entries from a
//! paginated wiki listing.
//!
//! The crate holds everything that decides or computes: which strings count
//! as entries, what a listing page yields, how the crawl reacts to each
//! completed fetch or parse, and how the collected entries are laid out for
//! output. Network and file access belong to the program around it.
//!
//! * [`alphabet`]: the rule that tells entries from noise.
//! * [`markup`]: what is read off a page's HTML.
//! * [`page`]: pages, parsed pages and parse failures.
//! * [`fetch`]: URLs and the judgement of responses.
//! * [`crawl`]: the crawl as a state machine over completions.
//! * [`runs`] and [`chain`]: laws about whole crawls.
//! * [`sink`]: flattening and laying out the result.
//! * [`scraper`]: the sequential, page-by-page variant of the crawl.
//! * [`rounds`]: laws about whole sequential scrapes.
//! * [`text`]: string helpers.

pub mod alphabet;
pub mod chain;
pub mod crawl;
pub mod fetch;
pub mod markup;
pub mod page;
pub mod rounds;
pub mod runs;
pub mod scraper;
pub mod sink;
pub mod text;
