//! Core logic for supervising a locally hosted inference engine:
//! resolving the platform's download source, locating or installing the
//! engine binary, supervising the engine process, probing readiness,
//! driving the setup lifecycle, and decoding the engine's newline-delimited
//! JSON response streams.

pub mod api;
pub mod chat;
pub mod config;
pub mod decode;
pub mod install;
pub mod lifecycle;
pub mod locate;
pub mod platform;
pub mod probe;
pub mod pull;
pub mod status;
pub mod supervisor;
