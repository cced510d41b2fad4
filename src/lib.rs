//! Client-side core for a messaging and calling daemon reached over a message bus:
//! the account and interaction snapshot, the dispatch of push notifications, the
//! shaping of bus requests and replies, and the modal key-driven interface.

pub mod model;
pub mod manager;
pub mod bus;
pub mod signal;
pub mod focus;
pub mod ui;
