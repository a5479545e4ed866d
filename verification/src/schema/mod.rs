//! The podcast and its episodes as the archive knows them.

pub mod episode;
pub mod feed;
pub mod podcast;
