//! The backend of a turn-based game for two players on a square grid:
//! games are created, listed, updated and deleted, and moves are added to
//! them, over a store in SQLite.
//!
//! The heart of the crate is the engine of `services::game`, which guards
//! the invariants of every game while it writes: moves alternate between X
//! and O, no position is taken twice, move numbers run from 1 without a gap,
//! and a game that is no longer in progress accepts no move.
//!
//! - `models`, `errors`: the values of the domain and the errors of the
//!   service, with their textual forms and status codes.
//! - `rules`: what the engine decides from the answers of the store.
//! - `statements`: the statements the engine sends to the store.
//! - `ledger`, `invariants`: a model of the store, and the proofs that the
//!   engine's decisions keep its invariants.
//! - `storage`: the calls into `rusqlite`, which are assumed, not verified.
//! - `services::game`, `db`: the engine and the connections it runs on.
//! - `http`, `config`: validation, handlers and envelopes of the HTTP
//!   surface, and the configuration of the server.

pub mod config;
pub mod db;
pub mod errors;
pub mod http;
pub mod invariants;
pub mod ledger;
pub mod models;
pub mod rules;
pub mod services;
pub mod statements;
pub mod storage;
pub mod text;
