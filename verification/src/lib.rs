//! The state machine of a terminal audio browser: directory listings,
//! selection, a single playback session, and the decisions of the
//! tick-driven loop, all free of I/O.

pub mod names;
pub mod order;
pub mod listing;
pub mod selection;
pub mod codec;
pub mod playback;
pub mod failure;
pub mod app_state;
pub mod layout;
