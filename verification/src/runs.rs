//! Whole runs of the crawl: what a sequence of events adds up to.
//!
//! The laws in this module are stated for every state and every sequence of
//! events, so they hold for any number of operations in flight and for any
//! order in which they complete.

use crate::crawl::{started, CrawlView, Event};
use crate::sink::{entry_bag, lemma_bag_ignores_batch_order};
use crate::text::views;
use vstd::prelude::*;

verus! {

/// The state that `events`, taken in order, lead to from `state`.
pub open spec fn run(state: CrawlView, events: Seq<Event>) -> CrawlView
    decreases events.len(),
{
    if events.len() == 0 {
        state
    } else {
        run(state, events.drop_last()).step(events.last())
    }
}

/// Whether each of `events` is, at its turn, the completion of an operation
/// that is in flight.
pub open spec fn expected(state: CrawlView, events: Seq<Event>) -> bool
    decreases events.len(),
{
    events.len() == 0 || (expected(state, events.drop_last()) && run(
        state,
        events.drop_last(),
    ).expects(events.last()))
}

/// The batches of the pages that were parsed with success, in the order in
/// which their parses completed.
pub open spec fn parsed_batches(events: Seq<Event>) -> Seq<Seq<Seq<char>>>
    decreases events.len(),
{
    if events.len() == 0 {
        Seq::empty()
    } else {
        match events.last() {
            Event::Parsed(Ok(parsed)) => parsed_batches(events.drop_last()).push(
                views(parsed.entries@),
            ),
            _ => parsed_batches(events.drop_last()),
        }
    }
}

/// The number of operations in flight never grows: every completion starts
/// at most one successor. A crawl that began with one fetch therefore has
/// at most one operation in flight at any time.
pub proof fn lemma_in_flight_never_grows(state: CrawlView, events: Seq<Event>)
    requires
        expected(state, events),
    ensures
        run(state, events).in_flight() <= state.in_flight(),
        state == started() ==> run(state, events).in_flight() <= 1,
    decreases events.len(),
{
    if events.len() > 0 {
        lemma_in_flight_never_grows(state, events.drop_last());
    }
}

/// The first failure is final: whatever completes after it changes neither
/// the failure that is reported nor the entries that were collected.
pub proof fn lemma_failure_is_kept(state: CrawlView, events: Seq<Event>)
    requires
        state.failure is Some,
    ensures
        run(state, events).failure == state.failure,
        run(state, events).batches == state.batches,
    decreases events.len(),
{
    if events.len() > 0 {
        lemma_failure_is_kept(state, events.drop_last());
    }
}

/// A run without a failure collects exactly the batches of the pages that
/// were parsed, each once, in the order in which the parses completed.
pub proof fn lemma_batches_accumulate(state: CrawlView, events: Seq<Event>)
    requires
        run(state, events).failure is None,
    ensures
        run(state, events).batches == state.batches + parsed_batches(events),
    decreases events.len(),
{
    if events.len() > 0 {
        lemma_batches_accumulate(state, events.drop_last());
    }
}

/// The entries of a crawl do not depend on the order in which its pages
/// complete: two runs from the same state that end without a failure and
/// parsed the same pages, in whatever order, hold the same multiset of
/// entries.
pub proof fn lemma_entries_ignore_completion_order(
    state: CrawlView,
    first: Seq<Event>,
    second: Seq<Event>,
)
    requires
        run(state, first).failure is None,
        run(state, second).failure is None,
        parsed_batches(first).to_multiset() == parsed_batches(second).to_multiset(),
    ensures
        entry_bag(run(state, first).batches) == entry_bag(run(state, second).batches),
{
    lemma_batches_accumulate(state, first);
    lemma_batches_accumulate(state, second);
    vstd::seq_lib::lemma_multiset_commutative(state.batches, parsed_batches(first));
    vstd::seq_lib::lemma_multiset_commutative(state.batches, parsed_batches(second));
    lemma_bag_ignores_batch_order(
        state.batches + parsed_batches(first),
        state.batches + parsed_batches(second),
    );
}

} // verus!
