//! Clipboard history mode: history entries, their labels and their HTML.
pub mod html;
pub mod model;
pub mod content;
pub mod tags;
pub mod input;
