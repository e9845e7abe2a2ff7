//! Transport and worker core of a remote speech-to-text service: the wire
//! protocol between a subtitle client and an inference server, the framing of
//! the compressed audio stream, request admission, the worker's dequeue rules
//! and the client's retry and cancellation rules.
//!
//! Everything here is a function from plain values to plain values. Sockets,
//! clocks, threads, the audio codec and the cipher live with the caller, which
//! feeds their outcomes back in.

pub mod auth;
pub mod client;
pub mod decimal;
pub mod error;
pub mod framing;
pub mod protocol;
pub mod server;
pub mod text;
pub mod wav;
pub mod worker;
