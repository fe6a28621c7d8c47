//! The club side: booking responses, requests and the sheet/event data shapes.
pub mod client;
pub mod schemas;
