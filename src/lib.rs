//! An in-memory ordered list store of to-do elements with bounds-checked
//! insert, remove, update and list operations.
pub mod element;
pub mod store;

pub use element::{Element, Index, Result, Status};
pub use store::{add_element_at, list_all, remove_element_at, update_element_at, ListStore};
