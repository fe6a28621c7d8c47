//! Request-level rules of the web interface.
pub mod auth;
pub mod clubs;
pub mod events;
pub mod jobs;
pub mod ratelimit;
pub mod users;
