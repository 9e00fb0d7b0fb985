//! What the HTTP surface of the service needs besides the engine: the
//! shapes of requests and responses, the validation of requests, and the
//! handlers of the routes.

pub mod dto;
pub mod handlers;
pub mod responses;
pub mod validators;
