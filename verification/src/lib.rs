//! A verified session-and-evasion engine for a disguising reverse proxy.
//!
//! The library holds the logic of the proxy: synthetic browser fingerprints,
//! per-key session state with bounded history, ordered header synthesis,
//! behavioural pre-flight planning, anti-bot response classification with a
//! bounded retry controller, HTML link rewriting, and a post-quantum secure
//! channel (key encapsulation, signatures, digest stamping and a repeating-key
//! XOR envelope).  Network I/O, the HTTP server and the clock live outside the
//! library and hand plain values in.

pub mod b64;
pub mod bytes;
pub mod detector;
pub mod engine;
pub mod fingerprint;
pub mod headers;
pub mod pqc;
pub mod primitives;
pub mod retry;
pub mod rewrite;
pub mod rng;
pub mod session;
pub mod simulate;
pub mod store;
