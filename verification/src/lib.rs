//! A minimal line-oriented network key-value protocol engine.
//!
//! Clients send newline-terminated textual commands (`PING`, `GET`, `SET`,
//! `DEL`, `QUIT`) and receive newline-terminated textual replies. This crate
//! holds the verified core of the service: the key-value store, the command
//! parser, the command processor, the response encoder, and the per-line
//! session step that ties them together. Network I/O and task scheduling live
//! outside the crate; they hand each received line to [`connection::session_step`]
//! and write back the reply it produces.

pub mod connection;
pub mod error;
pub mod laws;
pub mod parse;
pub mod store;
