//! A small client for a fitness service's REST API: the authorization-code
//! exchange, refresh-token renewal and the list of recent activities.
//!
//! The library decides; the caller talks to the network. Each step comes in
//! two halves: one that says what to send (an endpoint with its query), and
//! one that takes what came back (a [`Reply`]) and yields the new state or an
//! [`ApiError`].
pub mod activity;
pub mod auth;
pub mod endpoint;
pub mod error;

pub use activity::Activity;
pub use auth::{AuthData, Settings, Token};
pub use error::{ApiError, Reply};
