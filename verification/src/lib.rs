//! Tracks what one listener is playing and turns unreliable periodic
//! observations into a stable stream of playback transitions.

pub mod bus;
pub mod cache;
pub mod identity;
pub mod lastfm;
pub mod model;
pub mod poller;
pub mod session;
pub mod text;
pub mod viewer;
