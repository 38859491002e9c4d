//! Verified core logic of the fsel terminal launcher.
pub mod text;
pub mod preview;
pub mod desktop;
pub mod cli;
pub mod cclip;
pub mod dmenu;
pub mod config;
pub mod icons;
pub mod path_key;
pub mod navigation;
pub mod keys;
pub mod launcher;
pub mod cache;
