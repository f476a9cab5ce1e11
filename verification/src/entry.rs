//! A single task and its mathematical value.

use vstd::prelude::*;

verus! {

/// A task: what it says, whether it is done, whether its edit form is open.
///
/// An entry has no identity besides its place in the list that holds it.
#[derive(Debug, PartialEq, Eq)]
pub struct Entry {
    pub description: String,
    pub completed: bool,
    pub editing: bool,
}

/// The value of an [`Entry`], with the description as a sequence of characters.
pub struct EntryView {
    pub description: Seq<char>,
    pub completed: bool,
    pub editing: bool,
}

impl View for Entry {
    type V = EntryView;

    open spec fn view(&self) -> EntryView {
        EntryView {
            description: self.description@,
            completed: self.completed,
            editing: self.editing,
        }
    }
}

impl EntryView {
    /// The entry that adding `description` to a list creates: not done, not being edited.
    pub open spec fn fresh(description: Seq<char>) -> EntryView {
        EntryView { description, completed: false, editing: false }
    }

    /// This entry with its completion flag set to `completed`.
    pub open spec fn with_completed(self, completed: bool) -> EntryView {
        EntryView { completed, ..self }
    }

    /// This entry with its completion flag flipped.
    pub open spec fn toggled(self) -> EntryView {
        EntryView { completed: !self.completed, ..self }
    }

    /// This entry with its edit-mode flag flipped.
    pub open spec fn edit_toggled(self) -> EntryView {
        EntryView { editing: !self.editing, ..self }
    }

    /// This entry after an edit was committed: `text` is the new description and
    /// the edit-mode flag is flipped.
    pub open spec fn edited(self, text: Seq<char>) -> EntryView {
        EntryView { description: text, editing: !self.editing, ..self }
    }
}

/// The values of a sequence of entries, in the same order.
pub open spec fn views(entries: Seq<Entry>) -> Seq<EntryView> {
    entries.map_values(|e: Entry| e@)
}

impl Entry {
    /// A new task with the given description, not done and not being edited.
    pub fn new(description: String) -> (entry: Entry)
        ensures
            entry@ == EntryView::fresh(description@),
    {
        Entry { description, completed: false, editing: false }
    }
}

impl Clone for Entry {
    fn clone(&self) -> (copy: Entry)
        ensures
            copy == *self,
    {
        Entry {
            description: self.description.clone(),
            completed: self.completed,
            editing: self.editing,
        }
    }
}

/// Copies a list of entries.
pub fn clone_entries(entries: &Vec<Entry>) -> (copy: Vec<Entry>)
    ensures
        copy@ == entries@,
{
    let mut copy: Vec<Entry> = Vec::new();
    let mut i: usize = 0;
    while i < entries.len()
        invariant
            i <= entries.len(),
            copy@ == entries@.take(i as int),
        decreases entries.len() - i,
    {
        copy.push(entries[i].clone());
        assert(entries@.take(i + 1) =~= entries@.take(i as int).push(entries@[i as int]));
        i += 1;
    }
    assert(entries@.take(entries.len() as int) =~= entries@);
    copy
}

} // verus!
