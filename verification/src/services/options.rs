//! The options of the application.

use crate::services::paths::{DirectoryStatus, PathProvider};
use crate::text::opt_text;
use crate::utils::validation::{result_view, to_result_spec, ValidationError};
use crate::web::{opt_url, Url, UrlView};
use vstd::prelude::*;

verus! {

/// The options of the application.
#[derive(Debug)]
pub struct AppOptions {
    /// Directory to cache HTTP responses and audio files.
    ///
    /// Default: `cache`
    pub cache_dir: Option<String>,
    /// Directory to output processed files.
    ///
    /// Default: `output`
    pub output_dir: Option<String>,
    /// Base URL to use for server.
    ///
    /// Default: None
    pub server_base: Option<Url>,
    /// Expected external IP address.
    ///
    /// Execution will stop if different.
    ///
    /// Default: None
    pub expect_ip: Option<String>,
    /// Expected country geolocation.
    ///
    /// Execution will stop if different.
    ///
    /// Default: None
    pub expect_country: Option<String>,
}

/// What `AppOptions` holds, as mathematical values.
pub struct AppOptionsView {
    pub cache_dir: Option<Seq<char>>,
    pub output_dir: Option<Seq<char>>,
    pub server_base: Option<UrlView>,
    pub expect_ip: Option<Seq<char>>,
    pub expect_country: Option<Seq<char>>,
}

impl View for AppOptions {
    type V = AppOptionsView;

    open spec fn view(&self) -> AppOptionsView {
        AppOptionsView {
            cache_dir: opt_text(self.cache_dir),
            output_dir: opt_text(self.output_dir),
            server_base: opt_url(self.server_base),
            expect_ip: opt_text(self.expect_ip),
            expect_country: opt_text(self.expect_country),
        }
    }
}

impl Default for AppOptions {
    fn default() -> (options: Self)
        ensures
            options@ == (AppOptionsView {
                cache_dir: None,
                output_dir: None,
                server_base: None,
                expect_ip: None,
                expect_country: None,
            }),
    {
        AppOptions {
            cache_dir: None,
            output_dir: None,
            server_base: None,
            expect_ip: None,
            expect_country: None,
        }
    }
}

impl AppOptions {
    /// A copy of these options.
    pub fn duplicate(&self) -> (copy: AppOptions)
        ensures
            copy@ == self@,
    {
        let server_base = match &self.server_base {
            Some(url) => Some(url.duplicate()),
            None => None,
        };
        AppOptions {
            cache_dir: self.cache_dir.clone(),
            output_dir: self.output_dir.clone(),
            server_base,
            expect_ip: self.expect_ip.clone(),
            expect_country: self.expect_country.clone(),
        }
    }

    /// Checks the directories that the options name, given which of them exist.
    pub fn validate(&self, status: &DirectoryStatus) -> (result: Result<(), Vec<ValidationError>>)
        ensures
            result_view(result) == to_result_spec(PathProvider::directory_errors(self@, *status)),
    {
        let paths = PathProvider::new(self.duplicate());
        paths.validate(status)
    }
}

} // verus!
