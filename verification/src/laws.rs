//! What holds of the operations on a state, whatever the entries and the
//! filter are.

use vstd::prelude::*;
use crate::entry::EntryView;
use crate::filter::Filter;
use crate::state::StateView;
use crate::visible::{
    lemma_positions_below, lemma_visible_all, lemma_visible_positions, positions_below, visible,
    visible_positions,
};

verus! {

/// A place in the filtered view names one backing position: it lies in the
/// backing sequence, the entry there is the one shown at that place, and
/// exactly `idx` shown entries stand before it.
pub proof fn position_names_the_shown_entry(s: StateView, idx: int)
    requires
        s.shows(idx),
    ensures
        0 <= s.position(idx) < s.entries.len(),
        s.filter.fits(s.entries[s.position(idx)]),
        s.entries[s.position(idx)] == s.shown()[idx],
        visible(s.entries.take(s.position(idx)), s.filter).len() == idx,
{
    lemma_visible_positions(s.entries, s.filter);
}

/// Filtering never permutes: the entries of the filtered view stand in the
/// backing sequence in the order in which the view shows them.
pub proof fn shown_entries_keep_backing_order(s: StateView, j: int, k: int)
    requires
        0 <= j < k,
        s.shows(k),
    ensures
        0 <= s.position(j) < s.position(k) < s.entries.len(),
{
    lemma_visible_positions(s.entries, s.filter);
    let n = s.entries.len() as int;
    let positions = visible_positions(s.entries, s.filter);
    assert(positions == positions_below(s.entries, s.filter, n));
    lemma_positions_below(s.entries, s.filter, n);
    let p = positions[k];
    lemma_positions_below(s.entries, s.filter, p);
    let below = positions_below(s.entries, s.filter, p);
    assert(below == positions.take(k));
    assert(below[j] == positions[j]);
}

/// Toggling at a filter-relative index flips the completion flag of the entry
/// shown at that place of the filtered view, found by its backing position. No
/// other field of that entry and no other entry changes, nor do the filter and
/// the buffers.
pub proof fn toggle_changes_only_the_shown_entry(s: StateView, idx: int)
    requires
        s.shows(idx),
    ensures
        ({
            let p = s.position(idx);
            let t = s.toggle(idx);
            &&& 0 <= p < s.entries.len()
            &&& visible(s.entries.take(p), s.filter).len() == idx
            &&& t.entries.len() == s.entries.len()
            &&& t.entries[p].completed == !s.shown()[idx].completed
            &&& t.entries[p].description == s.shown()[idx].description
            &&& t.entries[p].editing == s.shown()[idx].editing
            &&& forall|j: int| 0 <= j < s.entries.len() && j != p ==> t.entries[j] == s.entries[j]
            &&& t.filter == s.filter
            &&& t.value == s.value
            &&& t.edit_value == s.edit_value
        }),
{
    position_names_the_shown_entry(s, idx);
}

/// Opening or closing the edit form at a filter-relative index flips the
/// edit-mode flag of the entry shown at that place and of no other entry, and
/// fills the edit input with the description of that entry.
pub proof fn toggle_edit_changes_only_the_shown_entry(s: StateView, idx: int)
    requires
        s.shows(idx),
    ensures
        ({
            let p = s.position(idx);
            let t = s.toggle_edit(idx);
            &&& 0 <= p < s.entries.len()
            &&& t.entries.len() == s.entries.len()
            &&& t.entries[p].editing == !s.shown()[idx].editing
            &&& t.entries[p].description == s.shown()[idx].description
            &&& t.entries[p].completed == s.shown()[idx].completed
            &&& forall|j: int| 0 <= j < s.entries.len() && j != p ==> t.entries[j] == s.entries[j]
            &&& t.edit_value == s.shown()[idx].description
            &&& t.filter == s.filter
            &&& t.value == s.value
        }),
{
    position_names_the_shown_entry(s, idx);
}

/// Committing an edit at a filter-relative index gives the entry shown at that
/// place the new description and flips its edit-mode flag. No other entry
/// changes, and the edit input is empty afterwards.
pub proof fn complete_edit_changes_only_the_shown_entry(s: StateView, idx: int, text: Seq<char>)
    requires
        s.shows(idx),
    ensures
        ({
            let p = s.position(idx);
            let t = s.complete_edit(idx, text);
            &&& 0 <= p < s.entries.len()
            &&& t.entries.len() == s.entries.len()
            &&& t.entries[p].description == text
            &&& t.entries[p].editing == !s.shown()[idx].editing
            &&& t.entries[p].completed == s.shown()[idx].completed
            &&& forall|j: int| 0 <= j < s.entries.len() && j != p ==> t.entries[j] == s.entries[j]
            &&& t.edit_value == Seq::<char>::empty()
            &&& t.filter == s.filter
            &&& t.value == s.value
        }),
{
    position_names_the_shown_entry(s, idx);
}

/// Removing at a filter-relative index takes out the entry shown at that place
/// and keeps the others in their order: those before it stay where they are,
/// those behind it move up by one.
pub proof fn remove_keeps_the_order(s: StateView, idx: int)
    requires
        s.shows(idx),
    ensures
        ({
            let p = s.position(idx);
            let t = s.remove(idx);
            &&& 0 <= p < s.entries.len()
            &&& s.entries[p] == s.shown()[idx]
            &&& t.entries.len() == s.entries.len() - 1
            &&& forall|j: int| 0 <= j < p ==> t.entries[j] == s.entries[j]
            &&& forall|j: int| p <= j < t.entries.len() ==> t.entries[j] == s.entries[j + 1]
            &&& t.filter == s.filter
            &&& t.value == s.value
            &&& t.edit_value == s.edit_value
        }),
{
    position_names_the_shown_entry(s, idx);
}

/// Setting all shown entries to `value` changes the completion flag of exactly
/// the entries that the active filter shows: each of them has the flag
/// `value` afterwards, and every entry that the filter does not show is
/// unchanged. Descriptions and edit-mode flags stay.
pub proof fn toggle_all_changes_only_shown_entries(s: StateView, value: bool)
    ensures
        ({
            let t = s.toggle_all(value);
            &&& t.entries.len() == s.entries.len()
            &&& forall|j: int|
                0 <= j < s.entries.len() && s.filter.fits(s.entries[j]) ==> #[trigger] t.entries[j]
                    == s.entries[j].with_completed(value)
            &&& forall|j: int|
                0 <= j < s.entries.len() && !s.filter.fits(s.entries[j]) ==> #[trigger] t.entries[j]
                    == s.entries[j]
            &&& t.filter == s.filter
            &&& t.value == s.value
            &&& t.edit_value == s.edit_value
        }),
{
}

/// Under the filter `Active`, completing all makes every entry that was not
/// done a done one and leaves every entry that was done as it was.
pub proof fn complete_all_under_active(s: StateView)
    requires
        s.filter == Filter::Active,
    ensures
        ({
            let t = s.toggle_all(true);
            &&& t.entries.len() == s.entries.len()
            &&& forall|j: int|
                0 <= j < s.entries.len() && !s.entries[j].completed ==> (#[trigger] t.entries[j]).completed
            &&& forall|j: int|
                0 <= j < s.entries.len() && s.entries[j].completed ==> #[trigger] t.entries[j]
                    == s.entries[j]
        }),
{
    toggle_all_changes_only_shown_entries(s, true);
}

/// Clearing the done entries does not look at the active filter: under every
/// filter the backing sequence becomes its entries that are not done, and the
/// filter and the buffers stay.
pub proof fn clear_completed_ignores_the_filter(s: StateView, filter: Filter)
    ensures
        s.with_filter(filter).clear_completed().entries == visible(s.entries, Filter::Active),
        s.with_filter(filter).clear_completed().entries == s.clear_completed().entries,
        s.with_filter(filter).clear_completed().filter == filter,
        s.with_filter(filter).clear_completed().value == s.value,
        s.with_filter(filter).clear_completed().edit_value == s.edit_value,
{
}

/// Clearing the done entries keeps the entries that are not done, each as it
/// was and all in their backing order, and keeps no entry that is done.
pub proof fn clear_completed_keeps_the_active_entries(s: StateView)
    ensures
        ({
            let kept = s.clear_completed().entries;
            let positions = visible_positions(s.entries, Filter::Active);
            &&& kept.len() == positions.len()
            &&& kept.len() <= s.entries.len()
            &&& forall|k: int|
                0 <= k < kept.len() ==> {
                    &&& 0 <= positions[k] < s.entries.len()
                    &&& #[trigger] kept[k] == s.entries[positions[k]]
                    &&& !kept[k].completed
                }
            &&& forall|j: int, k: int|
                0 <= j < k < kept.len() ==> #[trigger] positions[j] < #[trigger] positions[k]
        }),
{
    let active = s.with_filter(Filter::Active);
    lemma_visible_positions(s.entries, Filter::Active);
    let kept = s.clear_completed().entries;
    let positions = visible_positions(s.entries, Filter::Active);
    assert forall|j: int, k: int| 0 <= j < k < kept.len() implies #[trigger] positions[j]
        < #[trigger] positions[k] by {
        shown_entries_keep_backing_order(active, j, k);
    }
}

/// When the active filter shows no entry, not all entries count as done.
pub proof fn nothing_shown_is_not_all_completed(s: StateView)
    requires
        s.shown().len() == 0,
    ensures
        !s.is_all_completed(),
{
}

/// The two counts do not depend on the active filter: the total is the
/// length of the backing sequence, and the number of done entries is the same
/// under every filter.
pub proof fn counts_ignore_the_filter(s: StateView, filter: Filter)
    ensures
        s.with_filter(filter).total() == s.total(),
        s.with_filter(filter).total_completed() == s.total_completed(),
        s.total() == s.entries.len(),
        s.total_completed() <= s.total(),
{
    lemma_visible_all(s.entries);
    s.entries.lemma_filter_len(|e: EntryView| Filter::Completed.fits(e));
}

} // verus!
