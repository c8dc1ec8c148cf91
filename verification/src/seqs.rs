//! Small helpers over sequences that the stage contracts share.

use vstd::prelude::*;

verus! {

/// The first parts of a sequence of pairs.
pub open spec fn firsts<A, B>(pairs: Seq<(A, B)>) -> Seq<A> {
    pairs.map_values(|pair: (A, B)| pair.0)
}

/// The second parts of a sequence of pairs.
pub open spec fn seconds<A, B>(pairs: Seq<(A, B)>) -> Seq<B> {
    pairs.map_values(|pair: (A, B)| pair.1)
}

/// The values that are there, in order.
pub open spec fn present<A>(items: Seq<Option<A>>) -> Seq<A> {
    items.filter_map(|item: Option<A>| item)
}

/// Collects the values that are there, in order.
pub fn collect_present<A: Copy>(items: &Vec<Option<A>>) -> (found: Vec<A>)
    ensures
        found@ == present(items@),
{
    let mut found: Vec<A> = Vec::new();
    let ghost pick = |item: Option<A>| item;
    let mut i: usize = 0;
    while i < items.len()
        invariant
            i <= items@.len(),
            pick == |item: Option<A>| item,
            found@ == items@.take(i as int).filter_map(pick),
        decreases items.len() - i,
    {
        proof {
            items@.lemma_filter_map_take_succ(pick, i as int);
        }
        match items[i] {
            Some(item) => {
                found.push(item);
            },
            None => {},
        }
        i += 1;
    }
    proof {
        assert(items@.take(i as int) == items@);
    }
    found
}

/// No more values are there than places.
pub proof fn lemma_present_len<A>(items: Seq<Option<A>>)
    ensures
        present(items).len() <= items.len(),
    decreases items.len(),
{
    if items.len() > 0 {
        lemma_present_len(items.drop_last());
    }
}

} // verus!
