//! Polls price endpoints for a fixed list of assets and turns each reading into
//! lines for an append-only log.
//!
//! `json` reads a price out of a JSON body, `asset` describes the tracked assets and
//! their log lines, `poller` decides what a running poller does next, and `laws`
//! states what holds across whole cycles.

pub mod asset;
pub mod json;
pub mod laws;
pub mod poller;
mod text;

pub use asset::{
    default_assets, price_line, read_price, separator_line, status_is_success, Asset, Reply,
};
pub use json::{json_pointer, price_in, PollError};
pub use poller::{Action, Phase, Poller, POLL_SECONDS};
