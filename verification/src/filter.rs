//! View filters: which entries a view of the list shows.

use vstd::prelude::*;
use crate::entry::{Entry, EntryView};

verus! {

/// Selects the entries that a view of the list shows.
#[derive(Clone, Copy, Debug, PartialEq, Eq)]
pub enum Filter {
    All,
    Active,
    Completed,
}

impl Filter {
    /// Whether this filter shows `entry`: `All` shows every entry, `Active` those
    /// that are not done, `Completed` those that are.
    pub open spec fn fits(self, entry: EntryView) -> bool {
        match self {
            Filter::All => true,
            Filter::Active => !entry.completed,
            Filter::Completed => entry.completed,
        }
    }

    /// The text of the filter's link target.
    pub open spec fn href_text(self) -> Seq<char> {
        match self {
            Filter::All => "#/"@,
            Filter::Active => "#/active"@,
            Filter::Completed => "#/completed"@,
        }
    }

    /// The text of the filter's name.
    pub open spec fn label_text(self) -> Seq<char> {
        match self {
            Filter::All => "All"@,
            Filter::Active => "Active"@,
            Filter::Completed => "Completed"@,
        }
    }

    /// Whether this filter shows `entry`.
    pub fn fit(&self, entry: &Entry) -> (shown: bool)
        ensures
            shown == self.fits(entry@),
    {
        match self {
            Filter::All => true,
            Filter::Active => !entry.completed,
            Filter::Completed => entry.completed,
        }
    }

    /// The filter's canonical address, used for links only.
    pub fn href(&self) -> (text: &'static str)
        ensures
            text@ == self.href_text(),
    {
        match self {
            Filter::All => "#/",
            Filter::Active => "#/active",
            Filter::Completed => "#/completed",
        }
    }

    /// The filter's name as shown to the user.
    pub fn label(&self) -> (text: &'static str)
        ensures
            text@ == self.label_text(),
    {
        match self {
            Filter::All => "All",
            Filter::Active => "Active",
            Filter::Completed => "Completed",
        }
    }

    /// The three filters, in the order in which they are offered.
    pub fn variants() -> (all: [Filter; 3])
        ensures
            all@ == seq![Filter::All, Filter::Active, Filter::Completed],
    {
        [Filter::All, Filter::Active, Filter::Completed]
    }
}

} // verus!
