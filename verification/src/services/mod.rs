//! What the commands work with: the cache, the paths and the options.

pub mod http;
pub mod ipinfo;
pub mod options;
pub mod paths;
pub mod podcasts;
pub mod provider;
