//! Client-side codec and session driver for an IRC-style line protocol.
//!
//! The crate has two halves. The codec turns one CRLF-terminated wire line
//! into a structured [`message::Message`] (tags, source, command, parameters)
//! and turns a `Message` back into bytes. The session state machine in
//! [`session`] sequences registration, channel join and keepalive on top of
//! the codec. Transport, rendering and argument handling are callers'
//! business: everything here is pure computation over strings.
#![verifier::loop_isolation(false)]

pub mod chars;
pub mod command;
pub mod source;
pub mod param;
pub mod parser;
pub mod message;
pub mod session;
