//! A verified to-do list store.
//!
//! The store owns an ordered list of to-do items and a filter string, and
//! applies user commands (add, search, toggle-complete, edit, delete,
//! delete-all) through a single transition function whose behaviour is
//! stated in contracts over a mathematical view of the state. A pure
//! visibility projection selects the items whose description contains the
//! filter as a substring; it never changes the stored items.

pub mod text;
pub mod todo_list;
