//! The tasks of the tool, one file each, and what they share.

pub mod configure;
pub mod format;
pub mod tidy;
pub mod utils;
