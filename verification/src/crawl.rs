//! The crawl as a state machine.
//!
//! The crawl keeps two pools of operations in flight, fetches and parses,
//! and one accumulator of entries. Its driver performs the operations and
//! reports each completion as an [`Event`]; the [`Crawl`] answers with the
//! [`Action`] to take. A completed fetch is handed on to be parsed; a
//! completed parse adds its entries to the accumulator and, when the page
//! names a successor, asks for that page to be fetched. The first failure
//! is kept, and everything that completes after it is discarded.

use crate::fetch::FetchError;
use crate::page::{Page, ParseError, ParsedPage};
use crate::text::views;
use vstd::prelude::*;

verus! {

/// The failure that ended a crawl.
#[derive(Debug, Clone, PartialEq, Eq)]
pub enum CrawlError {
    /// A page could not be fetched.
    Fetch(FetchError),
    /// A page could not be parsed.
    Parse(ParseError),
}

/// The completion of one operation.
#[derive(Debug, PartialEq, Eq)]
pub enum Event {
    /// A fetch has come back.
    Fetched(Result<Page, FetchError>),
    /// A parse has come back.
    Parsed(Result<ParsedPage, ParseError>),
}

/// What the driver is to do next.
#[derive(Debug, Clone, PartialEq, Eq)]
pub enum Action {
    /// Start fetching the page at this path.
    Fetch(String),
    /// Start parsing this page.
    Parse(Page),
    /// Start nothing; other operations are still in flight.
    Wait,
    /// Nothing is in flight and nothing has failed: the crawl is complete.
    Finish,
    /// The crawl has failed.
    Abort,
}

/// Where a crawl stands.
#[derive(Debug, Clone, Copy, PartialEq, Eq, Structural)]
pub enum Status {
    /// Operations are in flight and nothing has failed.
    Running,
    /// Nothing is in flight and nothing has failed.
    Succeeded,
    /// An operation has failed.
    Failed,
}

/// The mathematical value of a [`Crawl`].
pub struct CrawlView {
    /// The number of fetches in flight.
    pub fetching: nat,
    /// The number of parses in flight.
    pub parsing: nat,
    /// The entries collected so far, one batch per parsed page, in the
    /// order in which the parses completed.
    pub batches: Seq<Seq<Seq<char>>>,
    /// The first failure, if there was one.
    pub failure: Option<CrawlError>,
}

/// The state of a crawl that has just asked for its first page.
pub open spec fn started() -> CrawlView {
    CrawlView { fetching: 1, parsing: 0, batches: Seq::empty(), failure: None }
}

impl CrawlView {
    /// The number of operations in flight.
    pub open spec fn in_flight(self) -> nat {
        self.fetching + self.parsing
    }

    /// Where the crawl stands.
    pub open spec fn status(self) -> Status {
        if self.failure is Some {
            Status::Failed
        } else if self.in_flight() == 0 {
            Status::Succeeded
        } else {
            Status::Running
        }
    }

    /// Whether `event` can be the completion of an operation in flight.
    pub open spec fn expects(self, event: Event) -> bool {
        match event {
            Event::Fetched(_) => self.fetching > 0,
            Event::Parsed(_) => self.parsing > 0,
        }
    }

    /// The state after `event`.
    pub open spec fn step(self, event: Event) -> CrawlView {
        if self.failure is Some {
            match event {
                Event::Fetched(_) => CrawlView { fetching: (self.fetching - 1) as nat, ..self },
                Event::Parsed(_) => CrawlView { parsing: (self.parsing - 1) as nat, ..self },
            }
        } else {
            match event {
                Event::Fetched(Ok(_)) => CrawlView {
                    fetching: (self.fetching - 1) as nat,
                    parsing: self.parsing + 1,
                    ..self
                },
                Event::Fetched(Err(error)) => CrawlView {
                    fetching: (self.fetching - 1) as nat,
                    failure: Some(CrawlError::Fetch(error)),
                    ..self
                },
                Event::Parsed(Ok(parsed)) => CrawlView {
                    fetching: if parsed.next_path is Some {
                        self.fetching + 1
                    } else {
                        self.fetching
                    },
                    parsing: (self.parsing - 1) as nat,
                    batches: self.batches.push(views(parsed.entries@)),
                    ..self
                },
                Event::Parsed(Err(error)) => CrawlView {
                    parsing: (self.parsing - 1) as nat,
                    failure: Some(CrawlError::Parse(error)),
                    ..self
                },
            }
        }
    }

    /// The action that answers `event`.
    pub open spec fn action(self, event: Event) -> Action {
        if self.step(event).failure is Some {
            Action::Abort
        } else {
            match event {
                Event::Fetched(Ok(page)) => Action::Parse(page),
                Event::Parsed(Ok(parsed)) => match parsed.next_path {
                    Some(path) => Action::Fetch(path),
                    None => if self.step(event).in_flight() == 0 {
                        Action::Finish
                    } else {
                        Action::Wait
                    },
                },
                _ => Action::Abort,
            }
        }
    }
}

/// The character views of a list of batches.
pub open spec fn batch_views(batches: Seq<Vec<String>>) -> Seq<Seq<Seq<char>>> {
    Seq::new(batches.len(), |i: int| views(batches[i]@))
}

/// The sizes of the two pools of operations in flight.
#[derive(Debug)]
struct Pools {
    fetching: usize,
    parsing: usize,
}

impl Pools {
    #[verifier::type_invariant]
    spec fn counts_fit(self) -> bool {
        self.fetching + self.parsing <= usize::MAX
    }

    /// A fetch has completed; a parse takes its place when `handed_on`.
    fn fetch_done(&mut self, handed_on: bool)
        requires
            old(self).fetching > 0,
        ensures
            final(self).fetching == old(self).fetching - 1,
            final(self).parsing == old(self).parsing + if handed_on {
                1int
            } else {
                0int
            },
    {
        proof {
            use_type_invariant(&*self);
        }
        self.fetching = self.fetching - 1;
        if handed_on {
            self.parsing = self.parsing + 1;
        }
    }

    /// A parse has completed; a fetch takes its place when `followed`.
    fn parse_done(&mut self, followed: bool)
        requires
            old(self).parsing > 0,
        ensures
            final(self).parsing == old(self).parsing - 1,
            final(self).fetching == old(self).fetching + if followed {
                1int
            } else {
                0int
            },
    {
        proof {
            use_type_invariant(&*self);
        }
        self.parsing = self.parsing - 1;
        if followed {
            self.fetching = self.fetching + 1;
        }
    }
}

/// A crawl in progress.
#[derive(Debug)]
pub struct Crawl {
    pools: Pools,
    batches: Vec<Vec<String>>,
    failure: Option<CrawlError>,
}

impl View for Crawl {
    type V = CrawlView;

    closed spec fn view(&self) -> CrawlView {
        CrawlView {
            fetching: self.pools.fetching as nat,
            parsing: self.pools.parsing as nat,
            batches: batch_views(self.batches@),
            failure: self.failure,
        }
    }
}

impl Crawl {
    /// Begins a crawl at `path`: one fetch is in flight, and the driver is
    /// asked to perform it.
    pub fn start(path: String) -> (begun: (Crawl, Action))
        ensures
            begun.0@ == started(),
            begun.1 == Action::Fetch(path),
    {
        let crawl = Crawl {
            pools: Pools { fetching: 1, parsing: 0 },
            batches: Vec::new(),
            failure: None,
        };
        assert(batch_views(crawl.batches@) == Seq::<Seq<Seq<char>>>::empty());
        (crawl, Action::Fetch(path))
    }

    /// The number of fetches in flight.
    pub fn fetching(&self) -> (count: usize)
        ensures
            count == self@.fetching,
    {
        self.pools.fetching
    }

    /// The number of parses in flight.
    pub fn parsing(&self) -> (count: usize)
        ensures
            count == self@.parsing,
    {
        self.pools.parsing
    }

    /// Where the crawl stands.
    pub fn status(&self) -> (status: Status)
        ensures
            status == self@.status(),
    {
        if self.failure.is_some() {
            Status::Failed
        } else if self.pools.fetching == 0 && self.pools.parsing == 0 {
            Status::Succeeded
        } else {
            Status::Running
        }
    }

    /// Takes in the completion of one operation and says what to do next.
    ///
    /// The event has to be the completion of an operation that is in
    /// flight: a fetch can only come back while fetches are out, a parse
    /// while parses are out.
    pub fn on_event(&mut self, event: Event) -> (action: Action)
        requires
            old(self)@.expects(event),
        ensures
            final(self)@ == old(self)@.step(event),
            action == old(self)@.action(event),
    {
        let failed = self.failure.is_some();
        match event {
            Event::Fetched(Ok(page)) => {
                self.pools.fetch_done(!failed);
                if failed {
                    Action::Abort
                } else {
                    Action::Parse(page)
                }
            },
            Event::Fetched(Err(error)) => {
                self.pools.fetch_done(false);
                if !failed {
                    self.failure = Some(CrawlError::Fetch(error));
                }
                Action::Abort
            },
            Event::Parsed(Ok(parsed)) => {
                let ParsedPage { entries, next_path } = parsed;
                self.pools.parse_done(!failed && next_path.is_some());
                if failed {
                    Action::Abort
                } else {
                    let ghost before = batch_views(self.batches@);
                    self.batches.push(entries);
                    assert(batch_views(self.batches@) == before.push(views(entries@)));
                    match next_path {
                        Some(path) => Action::Fetch(path),
                        None => if self.pools.fetching == 0 && self.pools.parsing == 0 {
                            Action::Finish
                        } else {
                            Action::Wait
                        },
                    }
                }
            },
            Event::Parsed(Err(error)) => {
                self.pools.parse_done(false);
                if !failed {
                    self.failure = Some(CrawlError::Parse(error));
                }
                Action::Abort
            },
        }
    }

    /// Ends the crawl. While operations are in flight and nothing has
    /// failed there is no result yet. After a failure the result is the
    /// first failure, and the entries collected up to it are dropped. A
    /// crawl that ran to its end hands out its batches.
    pub fn finish(self) -> (result: Option<Result<Vec<Vec<String>>, CrawlError>>)
        ensures
            match self@.status() {
                Status::Running => result is None,
                Status::Failed => result == Some(
                    Err::<Vec<Vec<String>>, CrawlError>(self@.failure->0),
                ),
                Status::Succeeded => result matches Some(Ok(batches)) && batch_views(batches@)
                    == self@.batches,
            },
    {
        let Crawl { pools, batches, failure } = self;
        match failure {
            Some(error) => Some(Err(error)),
            None => if pools.fetching == 0 && pools.parsing == 0 {
                Some(Ok(batches))
            } else {
                None
            },
        }
    }
}

} // verus!
