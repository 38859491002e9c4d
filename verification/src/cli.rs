//! Command-line options: the option enums, the option set and its checks.
pub mod enums;
pub mod help;
pub mod options;
pub mod validate;
pub mod arguments;
pub mod parse;
