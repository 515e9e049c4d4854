//! Playback-queue engine of a voice-channel music bot: per-guild queues and
//! loop state, the history of played tracks, the status display kept in sync
//! with them, and the text that display shows.
pub mod config;
pub mod data;
pub mod playlist_info;
pub mod queue;
pub mod resolve;
pub mod server_info;
pub mod text;
pub mod trimmed_embed;
pub mod visitor;
