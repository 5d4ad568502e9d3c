//! eggchan: the request logic of an imageboard backend.
//!
//! The library decides what each endpoint answers, given the rows that the
//! database returned, and drives the multi-step posting flows as state
//! machines whose requests the caller performs against the store.
pub mod ctl;
pub mod form;
pub mod http;
pub mod listing;
pub mod messages;
pub mod models;
pub mod posting;
pub mod responses;
