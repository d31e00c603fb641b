//! An event-routing core for bot-style applications.
//!
//! Inbound protocol events are matched against a registry of handlers
//! ("matchers"), filtered and optionally mutated by composable layers, and
//! the surviving handler bodies are handed back to the embedding runtime as
//! launch requests, so slow business logic never stalls the dispatch loop.
//!
//! The wire protocol, transport and scheduling are external collaborators:
//! they are reached through the [`session::ActionCaller`] and
//! [`session::Scheduler`] capabilities, and the embedding application runs
//! the actual event loop.

pub mod action;
pub mod event;
pub mod handle;
pub mod matchers;
pub mod pre_handle;
pub mod rule;
pub mod session;
pub mod shape;
pub mod signal;
pub mod text;
