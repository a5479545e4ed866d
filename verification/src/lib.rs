//! Cache-backed podcast discovery and archiving: the decisions, with their
//! proofs.
//!
//! The library decides and computes; it reads no file and makes no request.
//! Whoever drives it looks at the disk and the network, hands over what was
//! found, and carries out what the library answers.
//!
//! - [`services::http`]: the content cache, from a URL and a kind of content
//!   to a place on disk, and from there to a hit or a miss.
//! - [`scrape`]: discovery, by feed or by embedded player, up to a podcast
//!   with its episodes.
//! - [`pipeline`]: the best-effort batch and its bound on work in progress.
//! - [`download`]: the stages that an episode goes through.
//! - [`feeds`] and [`cover`]: the feed files and the images of a podcast.
//! - [`schema`]: the podcast, its episodes, and the feed as plain values.
//! - [`services::paths`]: the layout of the cache and of the archive.
//! - [`text`], [`path`], [`web`], [`timestamp`]: what the others are made of.

pub mod cover;
pub mod download;
pub mod feeds;
pub mod path;
pub mod pipeline;
pub mod schema;
pub mod scrape;
pub mod services;
pub mod text;
pub mod timestamp;
pub mod utils;
pub mod web;
