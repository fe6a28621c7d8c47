//! The shapes of the club's sheet and events data.
pub mod booking_event;
pub mod booking_group;
pub mod event;
