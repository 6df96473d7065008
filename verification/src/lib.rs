//! A verified core for a command-line client of a generative-AI HTTP API.
//!
//! The library covers the request-dispatch pipeline: classifying command-line
//! input into a request variant, constructing the matching payload, building
//! the request headers, and decoding the server's responses — including the
//! incremental line-framed decoding of a streamed chat response. The network
//! transport, terminal rendering and environment lookup are left to the
//! surrounding binary, which hands the library plain values.

pub mod chat;
pub mod constants;
pub mod decode;
pub mod errors;
pub mod framing;
pub mod images;
pub mod utils;
pub mod vision;
