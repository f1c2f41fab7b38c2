//! Core runtime of a terminal CRUD administration front end.
//!
//! The crate models the event-to-action loop that drives the interface:
//! raw key presses are resolved against a mode-scoped keybinding table into
//! semantic [`action::Action`]s, queued in FIFO order, and dispatched to a
//! registry of visual components gated by focus.  The generic list and form
//! state machines ([`crudlist`], [`crudedit`]) act on an in-memory record
//! store ([`store`]) that stands for the persistence collaborator; terminal
//! rendering and real persistence are left to the embedding program.

pub mod action;
pub mod app;
pub mod component;
pub mod crudedit;
pub mod crudlist;
pub mod entity;
pub mod keys;
pub mod mode;
pub mod store;
pub(crate) mod text;
