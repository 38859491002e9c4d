//! Icon themes: directory scores, theme metadata, settings, and the choice
//! among candidate files.
pub mod theme;
pub mod index;
pub mod lookup;
pub mod chain;
