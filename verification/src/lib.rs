//! Verified core of a small page-based HTTP demo: a generic request
//! lifecycle state machine, the dispatch/settlement rules that drive it,
//! and the input parsing (hex colors, numeric ids, the user wire format)
//! that stands between the UI and the network.

pub mod error;
pub mod lifecycle;
pub mod numbers;
pub mod color;
pub mod json;
pub mod fetcher;
pub mod route;
pub mod hello;
pub mod rest;
