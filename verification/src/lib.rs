//! Playback sessions for a remote music provider: the play order, the
//! per-session cursor, the session actor's decisions and the registry of
//! live sessions.

pub mod channel;
pub mod commands;
pub mod connection;
pub mod error;
pub mod manager;
pub mod messages;
pub mod options;
pub mod order;
pub mod player;
pub mod playlist;
pub mod provider;
pub mod state;
pub mod user;
