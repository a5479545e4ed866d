//! The record of one scraped audio file.

use vstd::prelude::*;

verus! {

/// What was found of one audio file, and where the file lies.
#[derive(Debug)]
pub struct Podcast {
    pub title: String,
    pub description: String,
    pub date: String,
    pub episode_type: String,
    pub author: String,
    pub subtitle: String,
    pub summary: String,
    pub duration: usize,
    pub guid: String,
    pub file: String,
}

} // verus!
