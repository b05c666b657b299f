//! The verified core of a terminal music player.

pub mod app;
pub mod audio;
pub mod config;
pub mod cookie;
pub mod error;
pub mod event;
pub mod model;
pub mod source;
pub mod text;
