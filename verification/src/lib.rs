//! Verified core of a self-hosted golf tee-time booker.
pub mod clubs;
pub mod config;
pub mod error;
pub mod golf;
pub mod scheduler;
pub mod text;
pub mod time;
pub mod users;
pub mod web;
