//! Protocol core of a client for the local HTTP management API of an ASIC miner.
//!
//! The library decides what is sent to the miner and what a reply means; it
//! performs no network I/O itself. A caller executes each [`http::HttpRequest`]
//! it is handed and reports back a [`http::Reply`].

pub mod error;
pub mod http;
pub mod json;
pub mod restart;
pub mod settings;
pub mod telemetry;
