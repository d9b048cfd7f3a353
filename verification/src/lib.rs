//! Playback queue and playlist engine of a terminal player for osu! song folders.
//!
//! The library decides which song sounds next and keeps the queue, the
//! playlists and the cursors consistent; the audio sink, the terminal and the
//! file system belong to the program around it.

pub mod app;
pub mod catalog;
pub mod osu;
pub mod player;
pub mod playlist;
pub mod renderer;
pub mod search;
