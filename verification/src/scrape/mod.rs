//! Discovery: from a seed URL to a podcast with its episodes.

pub mod client;
pub mod html_provider;
pub mod options;
pub mod podcast;
pub mod scrape;
pub mod scrape_simplecast;
pub mod simplecast;

pub mod simplecast_episode;
pub mod simplecast_playlist;
pub mod traversal;
