//! The services of the application, made from its options.

use crate::services::http::{http_error_message, HttpClient, HttpError, HttpErrorView};
use crate::services::options::AppOptions;
use crate::services::paths::{DirectoryStatus, PathProvider};
use crate::services::podcasts::PodcastProvider;
use crate::text::{chars_of, push_str, string_from_chars};
use crate::utils::validation::{
    error_views, result_view, to_result_spec, validation_error_message, ValidationError,
    ValidationErrorView,
};
use vstd::prelude::*;

verus! {

/// The services that the commands are made of.
#[derive(Debug)]
pub struct ServiceProvider {
    pub options: AppOptions,
    pub paths: PathProvider,
    pub http: HttpClient,
    pub podcasts: PodcastProvider,
}

/// Why the services could not be made.
#[derive(Debug)]
pub enum ServiceError {
    /// The options could not be read.
    GetConfig(String),
    /// The options are not valid.
    ValidateConfig(Vec<ValidationError>),
    /// The external address could not be found out.
    Ip(HttpError),
}

/// What a `ServiceError` holds, as mathematical values.
pub enum ServiceErrorView {
    GetConfig(Seq<char>),
    ValidateConfig(Seq<ValidationErrorView>),
    Ip(HttpErrorView),
}

impl View for ServiceError {
    type V = ServiceErrorView;

    open spec fn view(&self) -> ServiceErrorView {
        match self {
            ServiceError::GetConfig(cause) => ServiceErrorView::GetConfig(cause@),
            ServiceError::ValidateConfig(errors) => ServiceErrorView::ValidateConfig(
                error_views(errors@),
            ),
            ServiceError::Ip(e) => ServiceErrorView::Ip(e@),
        }
    }
}

/// The messages of the errors, each on a line of its own.
pub open spec fn error_lines(errors: Seq<ValidationErrorView>) -> Seq<char>
    decreases errors.len(),
{
    if errors.len() == 0 {
        Seq::empty()
    } else {
        error_lines(errors.drop_last()) + "\n"@ + validation_error_message(errors.last())
    }
}

/// What the user reads of a `ServiceError`.
pub open spec fn service_error_message(error: ServiceErrorView) -> Seq<char> {
    match error {
        ServiceErrorView::GetConfig(cause) => "Failed to read config\n"@ + cause,
        ServiceErrorView::ValidateConfig(errors) => "Failed to validate config\n"@ + error_lines(
            errors,
        ),
        ServiceErrorView::Ip(e) => "Failed to determine IP\n"@ + http_error_message(e),
    }
}

impl ServiceError {
    /// Writes the error out for the user.
    pub fn message(&self) -> (text: String)
        ensures
            text@ == service_error_message(self@),
    {
        match self {
            ServiceError::GetConfig(cause) => {
                let mut out = chars_of("Failed to read config\n");
                push_str(&mut out, cause.as_str());
                string_from_chars(&out)
            },
            ServiceError::ValidateConfig(errors) => {
                let mut out = chars_of("Failed to validate config\n");
                let ghost all = error_views(errors@);
                let ghost head = out@;
                let mut i: usize = 0;
                while i < errors.len()
                    invariant
                        i <= errors.len(),
                        all == error_views(errors@),
                        out@ == head + error_lines(all.take(i as int)),
                    decreases errors.len() - i,
                {
                    proof {
                        assert(all.take(i + 1).drop_last() == all.take(i as int));
                    }
                    let message = errors[i].message();
                    push_str(&mut out, "\n");
                    push_str(&mut out, message.as_str());
                    i += 1;
                }
                assert(all.take(all.len() as int) == all);
                string_from_chars(&out)
            },
            ServiceError::Ip(e) => {
                let mut out = chars_of("Failed to determine IP\n");
                push_str(&mut out, e.message().as_str());
                string_from_chars(&out)
            },
        }
    }
}

impl ServiceProvider {
    /// Makes the services from options that are valid, given which of their
    /// directories exist: the cache below the directory of responses, the
    /// records below their own. Options that are not valid make none.
    pub fn create(options: AppOptions, status: &DirectoryStatus) -> (services: Result<
        ServiceProvider,
        ServiceError,
    >)
        ensures
            match services {
                Ok(s) => PathProvider::directory_errors(options@, *status).len() == 0 && s.options@
                    == options@ && s.paths@ == options@ && s.http@ == PathProvider::http_dir(
                    options@,
                ) && s.podcasts@ == PathProvider::podcast_dir(options@),
                Err(e) => e matches ServiceError::ValidateConfig(errors) && result_view(
                    Err(errors),
                ) == to_result_spec(PathProvider::directory_errors(options@, *status)),
            },
    {
        match options.validate(status) {
            Ok(()) => {},
            Err(errors) => {
                return Err(ServiceError::ValidateConfig(errors));
            },
        }
        let paths = PathProvider::new(options.duplicate());
        let http = HttpClient::new(paths.get_http_dir());
        let podcasts = PodcastProvider::new(paths.get_podcast_dir());
        Ok(Self { options, paths, http, podcasts })
    }
}

} // verus!
