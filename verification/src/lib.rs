//! Verified core of a client for the Lettermint e-mail API: request types,
//! their validation, and the pure parts of preparing an HTTP request.

pub mod api;
pub mod endpoint;
pub mod reqwest;
