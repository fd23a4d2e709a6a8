//! A local sidecar process supervisor: the verified core of a host
//! application that launches a backend executable on a free TCP port,
//! waits for it to report healthy, and offers start / stop / URL / log
//! retrieval operations.
//!
//! The supervisor itself is a state machine over plain values: the host
//! performs the actual process spawning, HTTP probing and file reading,
//! and feeds each outcome to the verified transitions defined here.

pub mod errors;
pub mod health;
pub mod logs;
pub mod paths;
pub mod supervisor;
pub mod url;
