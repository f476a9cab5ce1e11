//! The list of entries with its active filter and its two input buffers.
//!
//! Every index that a mutating operation takes is a place in the filtered view
//! of the list. The operation finds the backing position of the entry shown at
//! that place and changes the backing sequence there. The backing sequence
//! keeps insertion order: no operation reorders it.

use vstd::prelude::*;
use crate::entry::{views, Entry, EntryView};
use crate::filter::Filter;
use crate::visible::{
    lemma_positions_below, lemma_positions_below_step, lemma_shown_entry_has_place,
    lemma_visible_all, lemma_visible_positions, positions_below, visible, visible_positions,
};

verus! {

/// The list, the active filter, the text of the new-entry input and the text of
/// the edit input.
#[derive(Debug, PartialEq, Eq)]
pub struct State {
    pub entries: Vec<Entry>,
    pub filter: Filter,
    pub value: String,
    pub edit_value: String,
}

/// The value of a [`State`].
#[verifier::ext_equal]
pub struct StateView {
    pub entries: Seq<EntryView>,
    pub filter: Filter,
    pub value: Seq<char>,
    pub edit_value: Seq<char>,
}

impl View for State {
    type V = StateView;

    open spec fn view(&self) -> StateView {
        StateView {
            entries: views(self.entries@),
            filter: self.filter,
            value: self.value@,
            edit_value: self.edit_value@,
        }
    }
}

/// A filter-relative index that names no entry: `index` is the index that was
/// asked for, `shown` the number of entries that the active filter shows.
#[derive(Clone, Copy, Debug, PartialEq, Eq)]
pub struct IndexOutOfRange {
    pub index: usize,
    pub shown: usize,
}

impl StateView {
    /// The state at startup: the given entries under `All`, both buffers empty.
    pub open spec fn initial(entries: Seq<EntryView>) -> StateView {
        StateView { entries, filter: Filter::All, value: Seq::empty(), edit_value: Seq::empty() }
    }

    /// The filtered view: the entries that the active filter shows, in backing order.
    pub open spec fn shown(self) -> Seq<EntryView> {
        visible(self.entries, self.filter)
    }

    /// Whether `idx` is a place in the filtered view.
    pub open spec fn shows(self, idx: int) -> bool {
        0 <= idx < self.shown().len()
    }

    /// The backing position of the entry at place `idx` of the filtered view.
    pub open spec fn position(self, idx: int) -> int {
        visible_positions(self.entries, self.filter)[idx]
    }

    /// Whether `error` is what an operation reports for the index `idx`, which
    /// is no place in the filtered view: it names the index and the number of
    /// entries shown.
    pub open spec fn rejects(self, idx: usize, error: IndexOutOfRange) -> bool {
        &&& !self.shows(idx as int)
        &&& error.index == idx
        &&& error.shown == self.shown().len()
    }

    /// This state under another filter.
    pub open spec fn with_filter(self, filter: Filter) -> StateView {
        StateView { filter, ..self }
    }

    /// This state with another text in the new-entry input.
    pub open spec fn with_value(self, value: Seq<char>) -> StateView {
        StateView { value, ..self }
    }

    /// This state with another text in the edit input.
    pub open spec fn with_edit_value(self, edit_value: Seq<char>) -> StateView {
        StateView { edit_value, ..self }
    }

    /// This state with another list of entries.
    pub open spec fn with_entries(self, entries: Seq<EntryView>) -> StateView {
        StateView { entries, ..self }
    }

    /// A fresh entry with the given description is appended to the backing
    /// sequence and the new-entry input is cleared.
    pub open spec fn add(self, description: Seq<char>) -> StateView {
        StateView {
            entries: self.entries.push(EntryView::fresh(description)),
            value: Seq::empty(),
            ..self
        }
    }

    /// The entry at place `idx` of the filtered view has its completion flag flipped.
    pub open spec fn toggle(self, idx: int) -> StateView {
        let p = self.position(idx);
        StateView { entries: self.entries.update(p, self.entries[p].toggled()), ..self }
    }

    /// The entry at place `idx` of the filtered view has its edit-mode flag
    /// flipped, and the edit input holds the description that the entry had.
    pub open spec fn toggle_edit(self, idx: int) -> StateView {
        let p = self.position(idx);
        StateView {
            entries: self.entries.update(p, self.entries[p].edit_toggled()),
            edit_value: self.entries[p].description,
            ..self
        }
    }

    /// The entry at place `idx` of the filtered view takes `text` as its
    /// description and has its edit-mode flag flipped; the edit input is cleared.
    pub open spec fn complete_edit(self, idx: int, text: Seq<char>) -> StateView {
        let p = self.position(idx);
        StateView {
            entries: self.entries.update(p, self.entries[p].edited(text)),
            edit_value: Seq::empty(),
            ..self
        }
    }

    /// The entry at place `idx` of the filtered view leaves the backing sequence.
    pub open spec fn remove(self, idx: int) -> StateView {
        StateView { entries: self.entries.remove(self.position(idx)), ..self }
    }

    /// Every entry that the active filter shows has its completion flag set to
    /// `value`; the others stay as they are.
    pub open spec fn toggle_all(self, value: bool) -> StateView {
        StateView {
            entries: self.entries.map_values(
                |e: EntryView| if self.filter.fits(e) { e.with_completed(value) } else { e },
            ),
            ..self
        }
    }

    /// The backing sequence keeps exactly its entries that are not done,
    /// whatever the active filter is.
    pub open spec fn clear_completed(self) -> StateView {
        StateView { entries: visible(self.entries, Filter::Active), ..self }
    }

    /// Whether the filtered view is not empty and every entry in it is done.
    pub open spec fn is_all_completed(self) -> bool {
        &&& self.shown().len() > 0
        &&& forall|k: int| 0 <= k < self.shown().len() ==> (#[trigger] self.shown()[k]).completed
    }

    /// The number of entries in the backing sequence.
    pub open spec fn total(self) -> nat {
        visible(self.entries, Filter::All).len()
    }

    /// The number of entries in the backing sequence that are done.
    pub open spec fn total_completed(self) -> nat {
        visible(self.entries, Filter::Completed).len()
    }
}

impl State {
    /// The state at startup: the given entries under `All`, both buffers empty.
    pub fn new(entries: Vec<Entry>) -> (state: State)
        ensures
            state@ == StateView::initial(views(entries@)),
    {
        State { entries, filter: Filter::All, value: String::new(), edit_value: String::new() }
    }

    /// Makes `filter` the active filter. The entries and the buffers stay.
    pub fn set_filter(&mut self, filter: Filter)
        ensures
            final(self)@ == old(self)@.with_filter(filter),
    {
        self.filter = filter;
    }

    /// Appends a fresh entry with the given description, which may be empty, at
    /// the end of the backing sequence, whatever the active filter is, and
    /// clears the new-entry input.
    pub fn add(&mut self, description: String)
        ensures
            final(self)@ == old(self)@.add(description@),
    {
        self.entries.push(Entry::new(description));
        self.value = String::new();
        assert(self@ =~= old(self)@.add(description@));
    }

    /// The number of entries in the backing sequence, whatever the active filter is.
    pub fn total(&self) -> (count: usize)
        ensures
            count == self@.total(),
            count == self@.entries.len(),
    {
        proof {
            lemma_visible_all(self@.entries);
        }
        self.entries.len()
    }

    /// The backing position of the entry at place `idx` of the filtered view, or
    /// the error that says how many entries the view shows.
    pub fn resolve(&self, idx: usize) -> (found: Result<usize, IndexOutOfRange>)
        ensures
            match found {
                Ok(p) => self@.shows(idx as int) && p == self@.position(idx as int) && p
                    < self.entries.len(),
                Err(e) => self@.rejects(idx, e),
            },
    {
        let ghost entries = self@.entries;
        let mut seen: usize = 0;
        let mut i: usize = 0;
        while i < self.entries.len()
            invariant
                entries == self@.entries,
                i <= self.entries.len(),
                seen <= i,
                seen <= idx,
                seen == visible(entries.take(i as int), self.filter).len(),
            decreases self.entries.len() - i,
        {
            proof {
                lemma_positions_below(entries, self.filter, i as int);
                lemma_positions_below_step(entries, self.filter, i as int);
            }
            if self.filter.fit(&self.entries[i]) {
                if seen == idx {
                    proof {
                        lemma_shown_entry_has_place(entries, self.filter, i as int);
                    }
                    return Ok(i);
                }
                seen += 1;
            }
            i += 1;
        }
        proof {
            assert(entries.take(i as int) =~= entries);
        }
        Err(IndexOutOfRange { index: idx, shown: seen })
    }

    /// Flips the completion flag of the entry at place `idx` of the filtered
    /// view, and of no other entry. An index that names no entry is reported
    /// and changes nothing.
    pub fn toggle(&mut self, idx: usize) -> (done: Result<(), IndexOutOfRange>)
        ensures
            match done {
                Ok(()) => old(self)@.shows(idx as int) && final(self)@ == old(self)@.toggle(
                    idx as int,
                ),
                Err(e) => old(self)@.rejects(idx, e) && final(self)@ == old(self)@,
            },
    {
        match self.resolve(idx) {
            Ok(p) => {
                proof {
                    lemma_visible_positions(self@.entries, self.filter);
                }
                let flag = self.entries[p].completed;
                self.entries[p].completed = !flag;
                assert(self@ =~= old(self)@.toggle(idx as int));
                Ok(())
            },
            Err(e) => Err(e),
        }
    }

    /// Flips the edit-mode flag of the entry at place `idx` of the filtered view,
    /// and of no other entry, and copies the description of that entry into the
    /// edit input. An index that names no entry is reported and changes nothing.
    pub fn toggle_edit(&mut self, idx: usize) -> (done: Result<(), IndexOutOfRange>)
        ensures
            match done {
                Ok(()) => old(self)@.shows(idx as int) && final(self)@ == old(self)@.toggle_edit(
                    idx as int,
                ),
                Err(e) => old(self)@.rejects(idx, e) && final(self)@ == old(self)@,
            },
    {
        match self.resolve(idx) {
            Ok(p) => {
                proof {
                    lemma_visible_positions(self@.entries, self.filter);
                }
                self.edit_value = self.entries[p].description.clone();
                let flag = self.entries[p].editing;
                self.entries[p].editing = !flag;
                assert(self@ =~= old(self)@.toggle_edit(idx as int));
                Ok(())
            },
            Err(e) => Err(e),
        }
    }

    /// Commits an edit: the entry at place `idx` of the filtered view takes
    /// `text` as its description and has its edit-mode flag flipped, and the
    /// edit input is cleared. An index that names no entry is reported and
    /// changes nothing.
    pub fn complete_edit(&mut self, idx: usize, text: String) -> (done: Result<
        (),
        IndexOutOfRange,
    >)
        ensures
            match done {
                Ok(()) => old(self)@.shows(idx as int) && final(self)@
                    == old(self)@.complete_edit(idx as int, text@),
                Err(e) => old(self)@.rejects(idx, e) && final(self)@ == old(self)@,
            },
    {
        match self.resolve(idx) {
            Ok(p) => {
                proof {
                    lemma_visible_positions(self@.entries, self.filter);
                }
                let flag = self.entries[p].editing;
                self.entries[p].description = text;
                self.entries[p].editing = !flag;
                self.edit_value = String::new();
                assert(self@ =~= old(self)@.complete_edit(idx as int, text@));
                Ok(())
            },
            Err(e) => Err(e),
        }
    }

    /// Removes the entry at place `idx` of the filtered view from the backing
    /// sequence; the entries behind it move up by one and keep their order. An
    /// index that names no entry is reported and changes nothing.
    pub fn remove(&mut self, idx: usize) -> (done: Result<(), IndexOutOfRange>)
        ensures
            match done {
                Ok(()) => old(self)@.shows(idx as int) && final(self)@ == old(self)@.remove(
                    idx as int,
                ),
                Err(e) => old(self)@.rejects(idx, e) && final(self)@ == old(self)@,
            },
    {
        match self.resolve(idx) {
            Ok(p) => {
                proof {
                    lemma_visible_positions(self@.entries, self.filter);
                }
                let _ = self.entries.remove(p);
                assert(self@ =~= old(self)@.remove(idx as int));
                Ok(())
            },
            Err(e) => Err(e),
        }
    }

    /// Sets the completion flag of every entry that the active filter shows to
    /// `value`. Entries that the filter does not show stay as they are.
    pub fn toggle_all(&mut self, value: bool)
        ensures
            final(self)@ == old(self)@.toggle_all(value),
    {
        let ghost before = self@;
        let mut i: usize = 0;
        while i < self.entries.len()
            invariant
                i <= self.entries.len(),
                self@.entries.len() == before.entries.len(),
                self@.filter == before.filter,
                self@.value == before.value,
                self@.edit_value == before.edit_value,
                forall|j: int| 0 <= j < i ==> self@.entries[j] == before.toggle_all(value).entries[j],
                forall|j: int| i <= j < before.entries.len() ==> self@.entries[j] == before.entries[j],
            decreases self.entries.len() - i,
        {
            if self.filter.fit(&self.entries[i]) {
                self.entries[i].completed = value;
            }
            i += 1;
        }
        assert(self@ =~= before.toggle_all(value));
    }

    /// Drops every entry that is done from the backing sequence, whatever the
    /// active filter is. The entries that stay keep their order.
    pub fn clear_completed(&mut self)
        ensures
            final(self)@ == old(self)@.clear_completed(),
    {
        let ghost before = self@;
        let mut all: Vec<Entry> = Vec::new();
        core::mem::swap(&mut self.entries, &mut all);
        let ghost items = all@;
        for entry in it: all
            invariant
                it.seq() == items,
                views(items) == before.entries,
                self@.entries == visible(before.entries.take(it.index() as int), Filter::Active),
                self@.filter == before.filter,
                self@.value == before.value,
                self@.edit_value == before.edit_value,
        {
            proof {
                lemma_positions_below_step(before.entries, Filter::Active, it.index() as int);
            }
            if Filter::Active.fit(&entry) {
                self.entries.push(entry);
            }
        }
        assert(before.entries.take(items.len() as int) =~= before.entries);
        assert(self@ =~= before.clear_completed());
    }

    /// The number of entries in the backing sequence that are done, whatever
    /// the active filter is.
    pub fn total_completed(&self) -> (count: usize)
        ensures
            count == self@.total_completed(),
    {
        let ghost entries = self@.entries;
        let mut count: usize = 0;
        let mut i: usize = 0;
        while i < self.entries.len()
            invariant
                entries == self@.entries,
                i <= self.entries.len(),
                count <= i,
                count == visible(entries.take(i as int), Filter::Completed).len(),
            decreases self.entries.len() - i,
        {
            proof {
                lemma_positions_below_step(entries, Filter::Completed, i as int);
            }
            if Filter::Completed.fit(&self.entries[i]) {
                count += 1;
            }
            i += 1;
        }
        assert(entries.take(i as int) =~= entries);
        count
    }

    /// Whether the filtered view is not empty and every entry in it is done. An
    /// empty filtered view gives `false`.
    pub fn is_all_completed(&self) -> (all: bool)
        ensures
            all == self@.is_all_completed(),
            self@.shown().len() == 0 ==> !all,
    {
        let ghost entries = self@.entries;
        let mut any: bool = false;
        let mut i: usize = 0;
        while i < self.entries.len()
            invariant
                entries == self@.entries,
                i <= self.entries.len(),
                any == (visible(entries.take(i as int), self.filter).len() > 0),
                forall|k: int|
                    0 <= k < visible(entries.take(i as int), self.filter).len() ==> (
                    #[trigger] visible(entries.take(i as int), self.filter)[k]).completed,
            decreases self.entries.len() - i,
        {
            proof {
                lemma_positions_below_step(entries, self.filter, i as int);
            }
            if self.filter.fit(&self.entries[i]) {
                if !self.entries[i].completed {
                    proof {
                        lemma_shown_entry_has_place(entries, self.filter, i as int);
                        lemma_visible_positions(entries, self.filter);
                        let k = visible(entries.take(i as int), self.filter).len() as int;
                        assert(!self@.shown()[k].completed);
                    }
                    return false;
                }
                any = true;
            }
            i += 1;
        }
        assert(entries.take(i as int) =~= entries);
        any
    }

    /// The backing positions of the entries that the active filter shows, in
    /// the order of the filtered view. Each is an index into the entries.
    pub fn shown_positions(&self) -> (positions: Vec<usize>)
        ensures
            positions@.map_values(|p: usize| p as int) == visible_positions(
                self@.entries,
                self@.filter,
            ),
            positions.len() == self@.shown().len(),
            forall|k: int| 0 <= k < positions.len() ==> #[trigger] positions[k] < self.entries.len(),
    {
        let ghost entries = self@.entries;
        let mut positions: Vec<usize> = Vec::new();
        let mut i: usize = 0;
        while i < self.entries.len()
            invariant
                entries == self@.entries,
                i <= self.entries.len(),
                positions@.map_values(|p: usize| p as int) == positions_below(
                    entries,
                    self.filter,
                    i as int,
                ),
                forall|k: int| 0 <= k < positions.len() ==> #[trigger] positions[k] < i,
            decreases self.entries.len() - i,
        {
            proof {
                lemma_positions_below_step(entries, self.filter, i as int);
            }
            if self.filter.fit(&self.entries[i]) {
                positions.push(i);
                assert(positions@.map_values(|p: usize| p as int) =~= positions_below(
                    entries,
                    self.filter,
                    i as int,
                ).push(i as int));
            }
            i += 1;
        }
        proof {
            lemma_visible_positions(entries, self.filter);
        }
        positions
    }
}

} // verus!
