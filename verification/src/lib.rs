//! An input event bridge for terminal user interfaces.
//!
//! A terminal input source offers only a single blocking read. This crate
//! turns that primitive into request/response semantics: a bounded-wait
//! `peek` and an unbounded `next_event`, backed by a dedicated reader that
//! performs exactly one blocking read per request token, plus the
//! deterministic, total mapping from raw terminal events (keys, mouse
//! actions, unsupported byte sequences) into a uniform abstract event type.
//!
//! The protocol invariant is that at most one request token is ever
//! outstanding per parser; the `event_due` flag is its single source of
//! truth, and the contracts in [`parser`] state how every operation moves
//! that flag and the count of tokens sent.

pub mod event;
pub mod mapper;
pub mod mux;
pub mod parser;
