//! A background task scheduler: clients submit units of work with a type tag
//! and an earliest-execution time; a dispatcher claims due tasks through an
//! optimistic-locking state-transition protocol, hands them to handlers, and
//! reclaims tasks that were claimed but never finished.

pub mod access;
pub mod event_loop;
pub mod laws;
pub mod models;
pub mod store;
