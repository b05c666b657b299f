//! The audio side: stream buffering, downloads, the disk cache and the engine.

pub mod streaming;
pub mod cache;
pub mod download;
pub mod engine;
pub mod volume;
pub mod devices;
