//! Helpers of the commands.

pub mod resize;
pub mod sanitizer;
pub mod tag;
pub mod validation;
