//! A bridge between private messages sent to a bot and per-user ticket
//! channels inside one staff workspace.
//!
//! The library holds every decision of the bridge: which channel belongs to
//! which user, what is relayed where and in what form, and how the staff
//! commands run. It performs no remote call itself. Each handling is a small
//! state machine: it names the next remote operation as an [`flow::Effect`],
//! the host performs it and hands back a [`flow::Reply`].

pub mod command;
pub mod dispatch;
pub mod engine;
pub mod envelope;
pub mod flow;
pub mod ident;
pub mod laws;
pub mod ledger;
pub mod mirror;
pub mod relay;
pub mod workspace;
