//! A cache of pages that lie side by side, each named after the hash of its URL.

use crate::path::{append_extension, join, joined, with_extension};
use crate::scrape::client::{hash_text, sha256_hex};
use crate::services::http::{is_success, HTML_EXTENSION};
use vstd::prelude::*;
use vstd::utf8::encode_utf8;

verus! {

/// A source of pages whose cache lies in `cache_dir`.
#[derive(Debug)]
pub struct HtmlProvider {
    pub cache_dir: String,
}

/// What went wrong with a page.
#[derive(Debug)]
pub enum HtmlProviderError {
    /// The server answered with a status that is no success.
    Status(u16),
    /// The request could not be made.
    Network(String),
    /// A file of the cache could not be read or written.
    Io(String),
    /// The text is no URL.
    InvalidUrl(String),
}

/// What a read of the cache gave: the page, nothing, or an error.
#[derive(Debug)]
pub enum Cached {
    /// The page was in the cache, with this content.
    Found(String),
    /// The page was not in the cache.
    Absent,
    /// The page was in the cache and could not be read.
    Unreadable(String),
}

/// Where a page is to be had.
#[derive(Debug)]
pub enum Page {
    /// From the cache, with this content.
    Content(String),
    /// From the network; the answer is then written to this path.
    Fetch(String),
}

/// The place of a page in the cache: the hash of its address, with the
/// extension `html`.
pub open spec fn page_path(cache_dir: Seq<char>, url: Seq<char>) -> Seq<char> {
    joined(cache_dir, with_extension(sha256_hex(encode_utf8(url)), HTML_EXTENSION@))
}

impl HtmlProvider {
    /// The place of a page in the cache.
    pub fn get_cache_path(&self, url: &str) -> (path: String)
        ensures
            path@ == page_path(self.cache_dir@, url@),
    {
        let name = append_extension(hash_text(url).as_str(), HTML_EXTENSION);
        join(self.cache_dir.as_str(), name.as_str())
    }

    /// Decides a `get` from what the cache gave: a page that was found is
    /// returned as it is; one that is absent, or that could not be read, is
    /// requested and cached.
    pub fn get(&self, url: &str, cached: Cached) -> (page: Page)
        ensures
            match cached {
                Cached::Found(content) => page matches Page::Content(c) && c@ == content@,
                _ => page matches Page::Fetch(path) && path@ == page_path(self.cache_dir@, url@),
            },
    {
        match cached {
            Cached::Found(content) => Page::Content(content),
            _ => Page::Fetch(self.get_cache_path(url)),
        }
    }

    /// Judges the status of a response: only a success is written to the cache.
    pub fn fetch_and_cache(status: u16) -> (checked: Result<(), HtmlProviderError>)
        ensures
            is_success(status) ==> checked is Ok,
            !is_success(status) ==> (checked matches Err(HtmlProviderError::Status(s)) && s
                == status),
    {
        if 200 <= status && status < 300 {
            Ok(())
        } else {
            Err(HtmlProviderError::Status(status))
        }
    }
}

} // verus!
