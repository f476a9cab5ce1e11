//! The engine: it takes one message at a time, applies it to the state, and
//! says what the host has to do afterwards.

use vstd::prelude::*;
use crate::entry::{clone_entries, views, Entry, EntryView};
use crate::filter::Filter;
use crate::state::{IndexOutOfRange, State, StateView};
use crate::sync::{push_request, Request};

verus! {

/// A message to the engine: an intent of the user, a tick of the push timer, or
/// the end of the startup pull.
#[derive(Debug, PartialEq, Eq)]
pub enum Msg {
    /// Add the text of the new-entry input as a new entry.
    Add,
    /// Drop the entries that are done.
    ClearCompleted,
    /// Commit the text of the edit input to the entry at this filter-relative index.
    Edit(usize),
    /// The startup pull brought these entries.
    InitialSync(Vec<Entry>),
    /// The new-entry input holds this text.
    Update(String),
    /// The edit input holds this text.
    UpdateEdit(String),
    /// Remove the entry at this filter-relative index.
    Remove(usize),
    /// Make this the active filter.
    SetFilter(Filter),
    /// Mark all shown entries as done, or as not done if all of them are done.
    ToggleAll,
    /// Open or close the edit form of the entry at this filter-relative index.
    ToggleEdit(usize),
    /// Flip the completion flag of the entry at this filter-relative index.
    Toggle(usize),
    /// Nothing to do.
    Nope,
    /// The push timer fired.
    Tick,
}

impl Msg {
    /// The filter-relative index that the message carries, if it carries one.
    pub open spec fn index(self) -> Option<usize> {
        match self {
            Msg::Edit(idx) | Msg::Remove(idx) | Msg::ToggleEdit(idx) | Msg::Toggle(idx) => Some(
                idx,
            ),
            _ => None,
        }
    }

    /// Whether handling the message can change the list of entries.
    pub open spec fn can_change_entries(self) -> bool {
        match self {
            Msg::Add
            | Msg::ClearCompleted
            | Msg::Edit(_)
            | Msg::InitialSync(_)
            | Msg::Remove(_)
            | Msg::ToggleAll
            | Msg::ToggleEdit(_)
            | Msg::Toggle(_) => true,
            Msg::Update(_) | Msg::UpdateEdit(_) | Msg::SetFilter(_) | Msg::Nope | Msg::Tick => false,
        }
    }
}

impl StateView {
    /// Whether the state can handle the message: a filter-relative index in it
    /// is a place in the filtered view.
    pub open spec fn accepts(self, msg: Msg) -> bool {
        match msg.index() {
            Some(idx) => self.shows(idx as int),
            None => true,
        }
    }

    /// The state after a message that it accepts.
    pub open spec fn after(self, msg: Msg) -> StateView {
        match msg {
            Msg::Add => self.add(self.value),
            Msg::ClearCompleted => self.clear_completed(),
            Msg::Edit(idx) => self.complete_edit(idx as int, self.edit_value),
            Msg::InitialSync(entries) => self.with_entries(views(entries@)),
            Msg::Update(text) => self.with_value(text@),
            Msg::UpdateEdit(text) => self.with_edit_value(text@),
            Msg::Remove(idx) => self.remove(idx as int),
            Msg::SetFilter(filter) => self.with_filter(filter),
            Msg::ToggleAll => self.toggle_all(!self.is_all_completed()),
            Msg::ToggleEdit(idx) => self.toggle_edit(idx as int),
            Msg::Toggle(idx) => self.toggle(idx as int),
            Msg::Nope | Msg::Tick => self,
        }
    }
}

/// What the host has to do after a message was handled.
#[derive(Debug, PartialEq, Eq)]
pub struct Effects {
    /// Whether the entries are to be written to the persistent store.
    pub persist: bool,
    /// The request that pushes the list to the server, if it is to be pushed.
    pub push: Option<Request>,
}

/// The engine. It owns the state; the host owns the store, the timer and the
/// transport, and hands every event to [`Model::update`], one at a time.
#[derive(Debug)]
pub struct Model {
    state: State,
}

impl View for Model {
    type V = StateView;

    closed spec fn view(&self) -> StateView {
        self.state@
    }
}

impl Model {
    /// The engine at startup, with the entries that the persistent store held,
    /// or with no entries if it held none. The filter is `All` and both input
    /// buffers are empty.
    pub fn create(restored: Option<Vec<Entry>>) -> (model: Model)
        ensures
            model@ == StateView::initial(
                match restored {
                    Some(entries) => views(entries@),
                    None => Seq::<EntryView>::empty(),
                },
            ),
    {
        let entries = match restored {
            Some(entries) => entries,
            None => Vec::new(),
        };
        assert(views(Seq::<Entry>::empty()) =~= Seq::<EntryView>::empty());
        Model { state: State::new(entries) }
    }

    /// The state that the engine holds.
    pub fn state(&self) -> (state: &State)
        ensures
            state@ == self@,
    {
        &self.state
    }

    /// Handles one message to completion.
    ///
    /// A message whose filter-relative index names no shown entry is reported
    /// and changes nothing. Any other message takes the state to
    /// `after(msg)`. The entries are to be persisted after every message that
    /// can change them, and a tick asks for a push of the whole list as it is.
    pub fn update(&mut self, msg: Msg) -> (outcome: Result<Effects, IndexOutOfRange>)
        ensures
            match outcome {
                Ok(effects) => {
                    &&& old(self)@.accepts(msg)
                    &&& final(self)@ == old(self)@.after(msg)
                    &&& effects.persist == msg.can_change_entries()
                    &&& match effects.push {
                        Some(request) => msg == Msg::Tick && request.is_push_of(old(self)@.entries),
                        None => msg != Msg::Tick,
                    }
                },
                Err(e) => {
                    &&& !old(self)@.accepts(msg)
                    &&& final(self)@ == old(self)@
                    &&& msg.index() == Some(e.index)
                    &&& e.shown == old(self)@.shown().len()
                },
            },
    {
        match msg {
            Msg::Add => {
                let description = self.state.value.clone();
                self.state.add(description);
                Ok(Effects { persist: true, push: None })
            },
            Msg::ClearCompleted => {
                self.state.clear_completed();
                Ok(Effects { persist: true, push: None })
            },
            Msg::Edit(idx) => {
                let text = self.state.edit_value.clone();
                match self.state.complete_edit(idx, text) {
                    Ok(()) => Ok(Effects { persist: true, push: None }),
                    Err(e) => Err(e),
                }
            },
            Msg::InitialSync(entries) => {
                self.state.entries = entries;
                assert(self.state@ =~= old(self)@.with_entries(views(entries@)));
                Ok(Effects { persist: true, push: None })
            },
            Msg::Update(text) => {
                self.state.value = text;
                assert(self.state@ =~= old(self)@.with_value(text@));
                Ok(Effects { persist: false, push: None })
            },
            Msg::UpdateEdit(text) => {
                self.state.edit_value = text;
                assert(self.state@ =~= old(self)@.with_edit_value(text@));
                Ok(Effects { persist: false, push: None })
            },
            Msg::Remove(idx) => match self.state.remove(idx) {
                Ok(()) => Ok(Effects { persist: true, push: None }),
                Err(e) => Err(e),
            },
            Msg::SetFilter(filter) => {
                self.state.set_filter(filter);
                Ok(Effects { persist: false, push: None })
            },
            Msg::ToggleAll => {
                let value = !self.state.is_all_completed();
                self.state.toggle_all(value);
                Ok(Effects { persist: true, push: None })
            },
            Msg::ToggleEdit(idx) => match self.state.toggle_edit(idx) {
                Ok(()) => Ok(Effects { persist: true, push: None }),
                Err(e) => Err(e),
            },
            Msg::Toggle(idx) => match self.state.toggle(idx) {
                Ok(()) => Ok(Effects { persist: true, push: None }),
                Err(e) => Err(e),
            },
            Msg::Nope => Ok(Effects { persist: false, push: None }),
            Msg::Tick => {
                let request = push_request(clone_entries(&self.state.entries));
                Ok(Effects { persist: false, push: Some(request) })
            },
        }
    }
}

} // verus!
