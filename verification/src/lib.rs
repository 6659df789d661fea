//! A list manager for the terminal: tasks in named workspaces, moved through
//! and changed by keys, and kept from one session to the next.
//!
//! This crate is the state of the application and everything that decides:
//! the entity model with its dense slots and single selection, the modes and
//! what each key does in each of them, the viewport over a list that is
//! taller than its pane, and the way from the state to the stored record and
//! back. Reading keys, painting cells and touching files are left to the
//! program around it.

use vstd::prelude::*;

pub mod app;
pub mod draw;
pub mod event;
pub mod item;
pub mod layout;
pub mod model;
pub mod query;
pub mod restore;
pub mod scroll;
pub mod text;
pub mod timestamp;
pub mod widget;
pub mod workspace;
pub mod yaml;

verus! {

} // verus!
