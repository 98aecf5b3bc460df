//! Restarts a media player when it starts playing an advertisement, keeping
//! the listener's volume.
//!
//! The crate holds the decisions only: which command goes to the player next,
//! and what its textual answer means. Running the command is left to the caller.

pub mod config;
pub mod freemium;
pub mod port;
pub mod spotify;
pub mod text;
pub mod watch;
