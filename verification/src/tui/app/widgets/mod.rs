//! The panels of the interface.

pub mod files;
pub mod help;
pub mod remote;
pub mod utils;
