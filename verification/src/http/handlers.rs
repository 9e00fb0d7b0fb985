//! The handlers of the HTTP routes, without the framework around them.

pub mod games;
