//! Verified core of a note-capture utility: short text fragments are filed
//! as chat messages under the active session of a device.
//!
//! `store` keeps sessions and messages in memory and fixes what each
//! operation does to them; `model` is the same store as a mathematical
//! value, with its invariant. `intake` files a fragment, either on a `Store`
//! or step by step for a host that keeps its rows in a database, and
//! `commands` answers the frontend. `window` and `startup` hold what the
//! host is told to do with its windows, its pool and its shortcuts.

pub mod commands;
pub mod error;
pub mod ident;
pub mod intake;
pub mod model;
pub mod records;
pub mod startup;
pub mod store;
pub mod title;
pub mod window;

pub use records::{ChatMessage, Fragment};
