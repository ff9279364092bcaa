//! A local-first recipe client core: the session that holds the short-lived
//! access token, the refresh-and-retry protocol around authenticated calls,
//! and the reconciliation of local records with the remote record set.
//!
//! Everything that touches the network, the OS secret store or the local
//! database is driven from outside: the protocols here are step functions
//! from a state and an event to the next state and the action to perform.

pub mod session;
pub mod refresh;
pub mod executor;
pub mod records;
pub mod api;
pub mod reconcile;
pub mod sync;
pub mod form;
pub mod text;
