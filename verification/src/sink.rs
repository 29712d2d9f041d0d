//! The output side: from the batches of a finished crawl to the text that
//! is written out.
//!
//! The batches are flattened into one list of entries, and the list is laid
//! out as text with one entry per line. Writing the text is the caller's
//! business.

use crate::crawl::batch_views;
use crate::text::views;
use vstd::multiset::Multiset;
use vstd::prelude::*;
use vstd::seq_lib::*;
use vstd::string::*;

verus! {

/// The text of a list of entries: every entry is followed by a line feed,
/// and nothing else is added.
pub open spec fn lines(entries: Seq<Seq<char>>) -> Seq<char>
    decreases entries.len(),
{
    if entries.len() == 0 {
        Seq::empty()
    } else {
        lines(entries.drop_last()) + entries.last() + seq!['\n']
    }
}

/// Joins the batches into one list: the batches in their order, and within
/// each batch the entries in theirs.
pub fn flatten(batches: Vec<Vec<String>>) -> (entries: Vec<String>)
    ensures
        views(entries@) == batch_views(batches@).flatten(),
{
    let mut entries: Vec<String> = Vec::new();
    for batch in it: batches
        invariant
            it.seq() == batches@,
            views(entries@) == batch_views(batches@).take(it.index() as int).flatten(),
    {
        let mut batch = batch;
        let ghost seen = batch_views(batches@).take(it.index() as int);
        let ghost added = views(batch@);
        entries.append(&mut batch);
        proof {
            assert(views(entries@) == seen.flatten() + added);
            assert(batch_views(batches@).take(it.index() + 1) == seen.push(added));
            seen.lemma_flatten_push(added);
        }
    }
    proof {
        assert(batch_views(batches@).take(batches@.len() as int) == batch_views(batches@));
    }
    entries
}

/// Lays the entries out as text, one per line.
pub fn render(entries: &Vec<String>) -> (text: String)
    ensures
        text@ == lines(views(entries@)),
{
    let mut text = String::new();
    let mut i: usize = 0;
    while i < entries.len()
        invariant
            i <= entries.len(),
            text@ == lines(views(entries@).take(i as int)),
        decreases entries.len() - i,
    {
        proof {
            let upto = views(entries@).take(i + 1);
            assert(upto.drop_last() == views(entries@).take(i as int));
            assert(upto.last() == entries@[i as int]@);
            reveal_strlit("\n");
            assert("\n"@ == seq!['\n']);
        }
        text.append(entries[i].as_str());
        text.append("\n");
        i += 1;
    }
    proof {
        assert(views(entries@).take(entries.len() as int) == views(entries@));
    }
    text
}

/// The multiset of entries that a list of batches holds.
pub open spec fn entry_bag(batches: Seq<Seq<Seq<char>>>) -> Multiset<Seq<char>> {
    batches.flatten().to_multiset()
}

/// A further batch adds exactly its own entries.
pub proof fn lemma_bag_push(batches: Seq<Seq<Seq<char>>>, batch: Seq<Seq<char>>)
    ensures
        entry_bag(batches.push(batch)) == entry_bag(batches).add(batch.to_multiset()),
{
    batches.lemma_flatten_push(batch);
    lemma_multiset_commutative(batches.flatten(), batch);
}

/// Taking one batch out takes exactly its entries out.
proof fn lemma_bag_remove(batches: Seq<Seq<Seq<char>>>, at: int)
    requires
        0 <= at < batches.len(),
    ensures
        entry_bag(batches) == entry_bag(batches.remove(at)).add(batches[at].to_multiset()),
    decreases batches.len(),
{
    let front = batches.drop_last();
    assert(batches == front.push(batches.last()));
    lemma_bag_push(front, batches.last());
    if at == batches.len() - 1 {
        assert(batches.remove(at) == front);
    } else {
        lemma_bag_remove(front, at);
        assert(batches.remove(at) == front.remove(at).push(batches.last()));
        lemma_bag_push(front.remove(at), batches.last());
        assert(entry_bag(batches) =~= entry_bag(batches.remove(at)).add(
            batches[at].to_multiset(),
        ));
    }
}

/// The order of the batches does not matter to what they hold: two lists
/// with the same batches, in whatever order, flatten to the same multiset of
/// entries.
pub proof fn lemma_bag_ignores_batch_order(
    first: Seq<Seq<Seq<char>>>,
    second: Seq<Seq<Seq<char>>>,
)
    requires
        first.to_multiset() == second.to_multiset(),
    ensures
        entry_bag(first) == entry_bag(second),
    decreases first.len(),
{
    to_multiset_len(first);
    to_multiset_len(second);
    if first.len() == 0 {
        assert(first == second);
    } else {
        let batch = first.last();
        let rest = first.drop_last();
        assert(first == rest.push(batch));
        assert(first.contains(batch));
        to_multiset_contains(first, batch);
        to_multiset_contains(second, batch);
        let at = choose|at: int| 0 <= at < second.len() && second[at] == batch;
        assert(first.remove(first.len() - 1) == rest);
        to_multiset_remove(first, first.len() - 1);
        to_multiset_remove(second, at);
        lemma_bag_ignores_batch_order(rest, second.remove(at));
        lemma_bag_push(rest, batch);
        lemma_bag_remove(second, at);
    }
}

} // verus!
