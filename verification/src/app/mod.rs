//! The program's state and how events change it.

pub mod account;
pub mod actions;
pub mod answering;
pub mod beat;
pub mod browse;
pub mod collect;
pub mod collecting;
pub mod conf;
pub mod desktop;
pub mod effect;
pub mod finding;
pub mod frame;
pub mod identity;
pub mod laws;
pub mod loaded;
pub mod mouse;
pub mod nav;
pub mod navigate;
pub mod order;
pub mod owning;
pub mod pages;
pub mod panels;
pub mod panes;
pub mod playback;
pub mod playing;
pub mod player;
pub mod queue;
pub mod screen;
pub mod session;
pub mod settings;
pub mod state;
pub mod tasks;
