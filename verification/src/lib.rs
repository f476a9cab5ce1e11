//! State engine of a task list: entries, view filters, filter-relative edits,
//! and the decisions around synchronising the list with a server.

pub mod entry;
pub mod filter;
pub mod laws;
pub mod model;
pub mod state;
pub mod sync;
pub mod visible;

pub use entry::{Entry, EntryView};
pub use filter::Filter;
pub use model::{Effects, Model, Msg};
pub use state::{IndexOutOfRange, State, StateView};
