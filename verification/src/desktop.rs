//! Desktop entries: the applications that the launcher lists.
pub mod app;
pub mod entry;
pub mod parse;
pub mod discover;
pub mod order;
