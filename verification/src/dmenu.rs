//! The dmenu mode: command panels beside the list.
pub mod panels;
pub mod editor;
pub mod layout;
pub mod query;
pub mod columns;
