//! The filtered view of a list of entries, and the backing positions of the
//! entries it shows.
//!
//! Every index that a user interface hands to the list is a place in the
//! filtered view. The functions here say which entry of the backing sequence
//! stands at such a place.

use vstd::prelude::*;
use crate::entry::EntryView;
use crate::filter::Filter;

verus! {

/// The entries that `filter` shows, in backing order.
pub open spec fn visible(entries: Seq<EntryView>, filter: Filter) -> Seq<EntryView> {
    entries.filter(|e: EntryView| filter.fits(e))
}

/// The backing positions of the entries that `filter` shows, in increasing order.
pub open spec fn visible_positions(entries: Seq<EntryView>, filter: Filter) -> Seq<int> {
    Seq::new(entries.len(), |i: int| i).filter(|i: int| filter.fits(entries[i]))
}

/// The backing positions below `n` of the entries that `filter` shows.
pub open spec fn positions_below(entries: Seq<EntryView>, filter: Filter, n: int) -> Seq<int> {
    Seq::new(n as nat, |i: int| i).filter(|i: int| filter.fits(entries[i]))
}

/// Extending the range of positions by one appends that position exactly when
/// the filter shows the entry there.
pub proof fn lemma_positions_below_step(entries: Seq<EntryView>, filter: Filter, n: int)
    requires
        0 <= n < entries.len(),
    ensures
        positions_below(entries, filter, n + 1) == if filter.fits(entries[n]) {
            positions_below(entries, filter, n).push(n)
        } else {
            positions_below(entries, filter, n)
        },
        visible(entries.take(n + 1), filter) == if filter.fits(entries[n]) {
            visible(entries.take(n), filter).push(entries[n])
        } else {
            visible(entries.take(n), filter)
        },
{
    reveal(Seq::filter);
    let range = Seq::new((n + 1) as nat, |i: int| i);
    assert(range.drop_last() =~= Seq::new(n as nat, |i: int| i));
    assert(range.last() == n);
    let prefix = entries.take(n + 1);
    assert(prefix.drop_last() =~= entries.take(n));
    assert(prefix.last() == entries[n]);
}

/// How the positions below `n` relate to the filtered view of the first `n` entries.
pub proof fn lemma_positions_below(entries: Seq<EntryView>, filter: Filter, n: int)
    requires
        0 <= n <= entries.len(),
    ensures
        positions_below(entries, filter, n).len() == visible(entries.take(n), filter).len(),
        positions_below(entries, filter, n).len() <= n,
        forall|k: int|
            0 <= k < positions_below(entries, filter, n).len() ==> {
                let p = #[trigger] positions_below(entries, filter, n)[k];
                &&& 0 <= p < n
                &&& filter.fits(entries[p])
                &&& entries[p] == visible(entries.take(n), filter)[k]
                &&& positions_below(entries, filter, p) == positions_below(entries, filter, n).take(k)
            },
    decreases n,
{
    if n == 0 {
        reveal(Seq::filter);
        assert(Seq::new(0nat, |i: int| i) =~= Seq::<int>::empty());
        assert(entries.take(0) =~= Seq::<EntryView>::empty());
    } else {
        lemma_positions_below(entries, filter, n - 1);
        lemma_positions_below_step(entries, filter, n - 1);
        let before = positions_below(entries, filter, n - 1);
        let now = positions_below(entries, filter, n);
        assert forall|k: int| 0 <= k < now.len() implies {
            let p = #[trigger] now[k];
            &&& 0 <= p < n
            &&& filter.fits(entries[p])
            &&& entries[p] == visible(entries.take(n), filter)[k]
            &&& positions_below(entries, filter, p) == now.take(k)
        } by {
            if k < before.len() {
                assert(now[k] == before[k]);
                assert(now.take(k) =~= before.take(k));
            } else {
                assert(now[k] == n - 1);
                assert(now.take(k) =~= before);
            }
        }
    }
}

/// The positions of the shown entries name the entries of the filtered view:
/// there are as many, each lies in the backing sequence at an entry that the
/// filter shows, the entry there is the one at the same place of the filtered
/// view, and exactly `k` shown entries stand before the position at place `k`.
pub proof fn lemma_visible_positions(entries: Seq<EntryView>, filter: Filter)
    ensures
        visible_positions(entries, filter).len() == visible(entries, filter).len(),
        visible(entries, filter).len() <= entries.len(),
        forall|k: int|
            0 <= k < visible(entries, filter).len() ==> {
                let p = #[trigger] visible_positions(entries, filter)[k];
                &&& 0 <= p < entries.len()
                &&& filter.fits(entries[p])
                &&& entries[p] == visible(entries, filter)[k]
                &&& visible(entries.take(p), filter).len() == k
            },
{
    let n = entries.len() as int;
    lemma_positions_below(entries, filter, n);
    assert(entries.take(n) =~= entries);
    assert(positions_below(entries, filter, n) == visible_positions(entries, filter));
    assert forall|k: int| 0 <= k < visible(entries, filter).len() implies {
        let p = #[trigger] visible_positions(entries, filter)[k];
        &&& 0 <= p < entries.len()
        &&& filter.fits(entries[p])
        &&& entries[p] == visible(entries, filter)[k]
        &&& visible(entries.take(p), filter).len() == k
    } by {
        let p = visible_positions(entries, filter)[k];
        assert(p == positions_below(entries, filter, n)[k]);
        lemma_positions_below(entries, filter, p);
    }
}

/// Every entry that the filter shows stands at one of the visible positions.
pub proof fn lemma_shown_entry_has_place(entries: Seq<EntryView>, filter: Filter, p: int)
    requires
        0 <= p < entries.len(),
        filter.fits(entries[p]),
    ensures
        ({
            let k = visible(entries.take(p), filter).len() as int;
            &&& k < visible(entries, filter).len()
            &&& visible_positions(entries, filter)[k] == p
        }),
{
    let n = entries.len() as int;
    lemma_visible_positions(entries, filter);
    lemma_positions_below(entries, filter, p);
    lemma_positions_below_step(entries, filter, p);
    let k = positions_below(entries, filter, p).len() as int;
    let upto = positions_below(entries, filter, p + 1);
    assert(upto[k] == p);
    lemma_positions_below_extend(entries, filter, p + 1, n);
    assert(positions_below(entries, filter, n) == visible_positions(entries, filter));
}

/// The positions below `m` are a prefix of the positions below any larger bound.
pub proof fn lemma_positions_below_extend(entries: Seq<EntryView>, filter: Filter, m: int, n: int)
    requires
        0 <= m <= n <= entries.len(),
    ensures
        positions_below(entries, filter, m).len() <= positions_below(entries, filter, n).len(),
        positions_below(entries, filter, m) == positions_below(entries, filter, n).take(
            positions_below(entries, filter, m).len() as int,
        ),
    decreases n - m,
{
    if m == n {
        let ps = positions_below(entries, filter, n);
        assert(ps.take(ps.len() as int) =~= ps);
    } else {
        lemma_positions_below_extend(entries, filter, m, n - 1);
        lemma_positions_below_step(entries, filter, n - 1);
        let short = positions_below(entries, filter, m);
        let before = positions_below(entries, filter, n - 1);
        let now = positions_below(entries, filter, n);
        assert(now.take(short.len() as int) =~= before.take(short.len() as int));
    }
}

/// Under `All` the filtered view is the backing sequence itself.
pub proof fn lemma_visible_all(entries: Seq<EntryView>)
    ensures
        visible(entries, Filter::All) == entries,
    decreases entries.len(),
{
    reveal(Seq::filter);
    if entries.len() > 0 {
        lemma_visible_all(entries.drop_last());
        assert(entries.drop_last().push(entries.last()) =~= entries);
    }
}

} // verus!
