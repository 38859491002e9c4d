//! Preview commands of the dmenu mode: placeholder expansion and the
//! handling of their output.
pub mod expand;
pub mod output;
pub mod runtime;
