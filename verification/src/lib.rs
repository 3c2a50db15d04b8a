//! Core of a streaming chat-completion client.
//!
//! A send operation posts a conversation to a chat-completion endpoint and
//! reads the reply as a stream of server-sent events. This crate holds the
//! parts of that operation that decide something, each with a contract that
//! Verus proves:
//!
//! - [`decoder`]: the frame decoder, which turns chunks of bytes into
//!   complete `data: ` frames, whatever the chunk boundaries;
//! - [`engine`]: the state machine of one send operation, which answers each
//!   thing the transport reports with the events to deliver and the next
//!   thing to do, and owns the retry policy;
//! - [`json`]: what the protocol reads in the JSON document of a frame;
//! - [`wire`] and [`channel`]: the string form of events, and the reading of
//!   such strings on the consumer's side;
//! - [`models`] and [`config`]: messages, chat history and endpoint settings;
//! - [`text`]: comparisons of texts;
//! - [`reassembly`], [`guarantees`] and [`delivery`]: what holds of every
//!   stream and of every run, stated as proved lemmas.
//!
//! The crate does no I/O. A driver issues the requests, reads the response
//! body and hands each event on.

pub mod channel;
pub mod config;
pub mod decoder;
pub mod delivery;
pub mod engine;
pub mod guarantees;
pub mod json;
pub mod models;
pub mod reassembly;
pub mod text;
pub mod wire;
