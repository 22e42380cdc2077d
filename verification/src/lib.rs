//! Supervision of an external media renderer: launch arguments, window
//! discovery, the control channel's wire format and the player's lifecycle.

pub mod channel;
pub mod config;
pub mod lifecycle;
pub mod pipe_id;
pub mod player;
pub mod resolver;
pub mod supervisor;
pub mod text;
pub mod wire;
