//! Rocket League Stats API listener and ballchasing.com replay uploader: the
//! decisions of the program, stated and proved.
pub mod text;
pub mod events;
pub mod framing;
pub mod reaction;
pub mod watcher;
pub mod uploader;
pub mod config;
