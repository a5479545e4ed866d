//! The options of a scrape that keeps its pages in a directory of its own.

use crate::path::{join, joined};
use crate::services::paths::push_error;
use crate::utils::validation::{
    error_views, optional, result_view, to_result, to_result_spec, ValidationError,
    ValidationErrorView,
};
use crate::web::Url;
use vstd::prelude::*;

verus! {

/// The name of a podcast, the address of its site, and the directory of the cache.
#[derive(Debug)]
pub struct ScrapeOptions {
    pub name: String,
    pub url: Url,
    pub cache_dir: String,
}

/// The directory of the cache where the options name none.
pub const DEFAULT_CACHE_DIR: &'static str = "cache";

/// What is wrong with the name: it is empty.
pub open spec fn name_error(name: Seq<char>) -> Option<ValidationErrorView> {
    if name.len() == 0 {
        Some(ValidationErrorView::Required("name"@))
    } else {
        None
    }
}

/// What is wrong with the cache directory: it is empty, or it has no
/// directory `client` in it.
pub open spec fn cache_dir_error(cache_dir: Seq<char>, client_exists: bool) -> Option<
    ValidationErrorView,
> {
    if cache_dir.len() == 0 {
        Some(ValidationErrorView::Required("cache_dir"@))
    } else if !client_exists {
        Some(ValidationErrorView::PathNotExist("cache_dir"@, joined(cache_dir, "client"@)))
    } else {
        None
    }
}

impl ScrapeOptions {
    /// Fills in the cache directory where the options name none.
    pub fn set_defaults(&mut self)
        ensures
            final(self).name == old(self).name,
            final(self).url == old(self).url,
            final(self).cache_dir@ == (if old(self).cache_dir@.len() == 0 {
                DEFAULT_CACHE_DIR@
            } else {
                old(self).cache_dir@
            }),
    {
        if self.cache_dir.as_str().unicode_len() == 0 {
            self.cache_dir = DEFAULT_CACHE_DIR.to_owned();
        }
    }

    /// The directory of the client below the cache directory, whose
    /// existence `validate` asks for.
    pub fn client_dir(&self) -> (dir: String)
        ensures
            dir@ == joined(self.cache_dir@, "client"@),
    {
        join(self.cache_dir.as_str(), "client")
    }

    /// Checks the options, given whether the client's directory exists: the
    /// name first, then the cache directory.
    pub fn validate(&self, client_exists: bool) -> (result: Result<(), Vec<ValidationError>>)
        ensures
            result_view(result) == to_result_spec(
                optional(name_error(self.name@)) + optional(
                    cache_dir_error(self.cache_dir@, client_exists),
                ),
            ),
    {
        let mut errors: Vec<ValidationError> = Vec::new();
        let name = if self.name.as_str().unicode_len() == 0 {
            Err(ValidationError::Required("name".to_owned()))
        } else {
            Ok(())
        };
        push_error(&mut errors, name);
        let cache_dir = if self.cache_dir.as_str().unicode_len() == 0 {
            Err(ValidationError::Required("cache_dir".to_owned()))
        } else if !client_exists {
            Err(ValidationError::PathNotExist("cache_dir".to_owned(), self.client_dir()))
        } else {
            Ok(())
        };
        push_error(&mut errors, cache_dir);
        to_result(errors)
    }
}

} // verus!
