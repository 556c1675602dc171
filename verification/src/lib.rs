//! A small discussion forum, as far as it decides things: the interactive session that is
//! spoken over a raw connection, the state of the terminal client, and the rules of the HTTP
//! service. Nothing here reads, writes or waits; the programs around the library do.
//!
//! - [`session`], [`protocol`], [`engine`], [`laws`]: one interactive session as a state
//!   machine. [`protocol::step`] is the transition function over mathematical values,
//!   [`session::Session`] the executable state with a method for each kind of transition, and
//!   [`laws`] holds what is proved of every session.
//! - [`command`], [`listing`], [`text`], [`wire`]: what a line of input means, how the threads
//!   are listed, text helpers, and the decoding of received bytes.
//! - [`app`], [`keys`]: the state of the terminal client and what a key press does to it.
//! - [`api`], [`json`]: the records and addresses of the HTTP service, data URLs for images,
//!   and members of JSON documents.
//! - [`accounts`], [`terminal`]: the rules of the HTTP service on accounts, and the commands
//!   of its web terminal.
//! - [`strings`]: contracts for the editing methods of `String`.

pub mod accounts;
pub mod api;
pub mod app;
pub mod command;
pub mod engine;
pub mod json;
pub mod keys;
pub mod laws;
pub mod listing;
pub mod protocol;
pub mod session;
pub mod strings;
pub mod terminal;
pub mod text;
pub mod wire;
