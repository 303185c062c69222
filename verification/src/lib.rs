//! Client-side building blocks for the Gemini generative-language HTTP API.
//!
//! The crate holds the request builders, the wire data model and, above all,
//! the incremental parser that turns an arbitrarily chunked byte stream
//! holding one top-level JSON array into the sequence of its elements.
//! Everything here is synchronous and free of I/O: a transport hands byte
//! chunks in and takes element frames out.

pub mod chat;
pub mod client;
pub mod decimal;
pub mod decode;
pub mod framing;
pub mod laws;
pub mod stream;
pub mod types;
