//! Core of a back-run searcher for a single-pool automated market maker.
//!
//! The library holds the verified logic of the pipeline: polling collectors
//! that turn raw poll results into a deduplicated, monotonically advancing
//! event feed; a dispatcher that delivers events to the strategy one at a
//! time; the strategy's state machine; a pure integer solver that searches
//! for the profit-maximizing response trade; and the construction and
//! classification of the two-transaction bundle that carries the response.
//! All chain I/O (RPC polling, bundle simulation, signing) lives outside the
//! library and hands it plain values.

pub mod types;
pub mod errors;
pub mod solver;
pub mod collectors;
pub mod bundle;
pub mod strategy;
pub mod dispatcher;
