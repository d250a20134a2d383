//! Core of an actor that drives a single UCI chess-engine subprocess:
//! the data model for work orders and responses, the pure encoder that
//! turns an order into outbound protocol lines, the incremental decoder
//! that folds the engine's output lines into a response, and the actor's
//! state machine. Process plumbing (pipes, mailbox, subprocess) lives
//! outside this crate and calls into it with plain values.

pub mod actor;
pub mod api;
pub mod decode;
pub mod encode;
pub mod matrix;
pub mod num;
pub mod text;
