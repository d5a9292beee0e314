//! Facts about sequences of connections.
use vstd::prelude::*;

verus! {

/// Pushing adds one element and keeps the others.
pub(crate) proof fn lemma_push_contains(s: Seq<u64>, last: u64)
    ensures
        forall|x: u64| #[trigger] s.push(last).contains(x) <==> s.contains(x) || x == last,
{
    assert forall|x: u64| s.contains(x) || x == last implies #[trigger] s.push(last).contains(
        x,
    ) by {
        if x == last {
            assert(s.push(last)[s.len() as int] == last);
        } else {
            let i = choose|i: int| 0 <= i < s.len() && s[i] == x;
            assert(s.push(last)[i] == x);
        }
    }
}

/// Filtering keeps the elements that satisfy `p`, and makes no repeats.
proof fn lemma_filter_contains(s: Seq<u64>, p: spec_fn(u64) -> bool)
    ensures
        forall|x: u64| #[trigger] s.filter(p).contains(x) <==> s.contains(x) && p(x),
        s.no_duplicates() ==> s.filter(p).no_duplicates(),
    decreases s.len(),
{
    reveal(Seq::filter);
    if s.len() > 0 {
        let rest = s.drop_last();
        lemma_filter_contains(rest, p);
        lemma_push_contains(rest, s.last());
        lemma_push_contains(rest.filter(p), s.last());
        assert(rest.push(s.last()) == s);
        if s.no_duplicates() {
            assert(!rest.contains(s.last()));
            assert(!rest.filter(p).contains(s.last()));
        }
    }
}

/// Of a sequence without repeats, as many elements satisfy `p` as of its set.
pub(crate) proof fn lemma_filter_counts(s: Seq<u64>, p: spec_fn(u64) -> bool)
    requires
        s.no_duplicates(),
    ensures
        s.filter(p).len() == s.to_set().filter(p).len(),
{
    lemma_filter_contains(s, p);
    s.filter(p).unique_seq_to_set();
    assert(s.filter(p).to_set() =~= s.to_set().filter(p)) by {
        assert forall|x: u64| s.filter(p).to_set().contains(x) == s.to_set().filter(p).contains(
            x,
        ) by {
            assert(s.filter(p).contains(x) <==> s.contains(x) && p(x));
        }
    }
}

} // verus!
