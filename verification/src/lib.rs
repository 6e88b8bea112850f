//! Ursa Minor: a trust-boundary gateway in front of a third-party
//! game-statistics API.
//!
//! The library holds the request admission and translation pipeline:
//! deciding who is calling (authentication), whether they may proceed
//! (rate control), and what upstream call the request maps to (rule-based
//! translation).  Network transport, the shared store connection and
//! process bootstrap live outside the library and hand it plain values.

pub mod auth;
pub mod pipeline;
pub mod ratelimit;
pub mod respond;
pub mod route;
pub mod rules;
pub mod text;
pub mod token;
pub mod util;
pub mod weburl;
