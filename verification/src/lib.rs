//! Core logic of a bounded-concurrency session server: a fixed-capacity
//! admission gate, an active-session counter, the per-session supervisor
//! state machine, and the fixed wire responses. All I/O lives outside
//! this crate; these types decide, the surrounding program performs.

pub mod command;
pub mod config;
pub mod gate;
pub mod messages;
pub mod register;
pub mod responses;
pub mod session;
