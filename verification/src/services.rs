//! The operations of the service.

pub mod game;
