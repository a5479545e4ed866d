//! The cover command: the images that are made of a podcast's artwork.

use crate::path::joined;
use crate::schema::podcast::Podcast;
use crate::services::http::{http_error_message, HttpClient, HttpError, HttpErrorView};
use crate::services::options::AppOptionsView;
use crate::services::paths::PathProvider;
use crate::services::podcasts::{
    database_error_message, DatabaseError, DatabaseErrorView, PodcastProvider,
};
use crate::text::{chars_of, push_str, string_from_chars};
use crate::utils::resize::{image_error_message, ImageError, ImageErrorView};
use crate::web::Url;
use vstd::prelude::*;

verus! {

/// The width of a banner.
pub const BANNER_WIDTH: u32 = 960;

/// The height of a banner.
pub const BANNER_HEIGHT: u32 = 540;

/// The width and height of a cover.
pub const COVER_SIZE: u32 = 720;

/// The options of the cover command.
#[derive(Debug)]
pub struct CoverOptions {
    /// The id of the podcast whose images are made.
    pub podcast_id: String,
}

/// The command that makes the cover and the banner of a podcast.
#[derive(Debug)]
pub struct CoverCommand {
    podcasts: PodcastProvider,
    http: HttpClient,
    paths: PathProvider,
}

/// Why the images were not made.
#[derive(Debug)]
pub enum CoverError {
    /// The record of the podcast could not be read.
    GetPodcast(DatabaseError),
    /// The podcast has no artwork.
    NoImage,
    /// The artwork could not be fetched.
    GetImage(HttpError),
    /// An image could not be made of the artwork.
    Image(ImageError),
}

/// What a `CoverError` holds, as mathematical values.
pub enum CoverErrorView {
    GetPodcast(DatabaseErrorView),
    NoImage,
    GetImage(HttpErrorView),
    Image(ImageErrorView),
}

impl View for CoverError {
    type V = CoverErrorView;

    open spec fn view(&self) -> CoverErrorView {
        match self {
            CoverError::GetPodcast(e) => CoverErrorView::GetPodcast(e@),
            CoverError::NoImage => CoverErrorView::NoImage,
            CoverError::GetImage(e) => CoverErrorView::GetImage(e@),
            CoverError::Image(e) => CoverErrorView::Image(e@),
        }
    }
}

/// An image that is to be made: where, and how large.
#[derive(Debug)]
pub struct Picture {
    pub path: String,
    pub width: u32,
    pub height: u32,
}

/// What is to be done for the images of a podcast.
#[derive(Debug)]
pub struct CoverPlan {
    /// The artwork, which is fetched through the cache without an extension.
    pub source: Url,
    /// The banner that is made of it.
    pub banner: Picture,
    /// The cover that is made of it.
    pub cover: Picture,
}

impl CoverCommand {
    /// The directory of the records.
    pub closed spec fn podcasts(&self) -> Seq<char> {
        self.podcasts@
    }

    /// The directory of the cache.
    pub closed spec fn http(&self) -> Seq<char> {
        self.http@
    }

    /// The options from which the archive's paths are derived.
    pub closed spec fn paths(&self) -> AppOptionsView {
        self.paths@
    }

    /// A command over the services that it is given.
    #[must_use]
    pub fn new(podcasts: PodcastProvider, http: HttpClient, paths: PathProvider) -> (command: Self)
        ensures
            command.podcasts() == podcasts@,
            command.http() == http@,
            command.paths() == paths@,
    {
        Self { podcasts, http, paths }
    }

    /// The records.
    pub fn get_podcasts(&self) -> (podcasts: &PodcastProvider)
        ensures
            podcasts@ == self.podcasts(),
    {
        &self.podcasts
    }

    /// The cache.
    pub fn get_http(&self) -> (http: &HttpClient)
        ensures
            http@ == self.http(),
    {
        &self.http
    }

    /// Plans the images of a podcast: a banner and a cover are made of its
    /// artwork, below the podcast's directory in the archive. A podcast
    /// without artwork has none.
    pub fn execute(&self, options: &CoverOptions, podcast: &Podcast) -> (plan: Result<
        CoverPlan,
        CoverError,
    >)
        ensures
            match podcast@.image_url {
                None => plan is Err && plan->Err_0@ == CoverErrorView::NoImage,
                Some(url) => plan is Ok && plan->Ok_0.source@ == url && plan->Ok_0.banner.path@
                    == joined(
                    joined(PathProvider::output_dir(self.paths()), options.podcast_id@),
                    "banner.jpg"@,
                ) && plan->Ok_0.banner.width == BANNER_WIDTH && plan->Ok_0.banner.height
                    == BANNER_HEIGHT && plan->Ok_0.cover.path@ == joined(
                    joined(PathProvider::output_dir(self.paths()), options.podcast_id@),
                    "cover.jpg"@,
                ) && plan->Ok_0.cover.width == COVER_SIZE && plan->Ok_0.cover.height == COVER_SIZE,
            },
    {
        match &podcast.image_url {
            None => Err(CoverError::NoImage),
            Some(url) => {
                let id = options.podcast_id.as_str();
                Ok(
                    CoverPlan {
                        source: url.duplicate(),
                        banner: Picture {
                            path: self.paths.get_output_path_for_banner(id),
                            width: BANNER_WIDTH,
                            height: BANNER_HEIGHT,
                        },
                        cover: Picture {
                            path: self.paths.get_output_path_for_cover(id),
                            width: COVER_SIZE,
                            height: COVER_SIZE,
                        },
                    },
                )
            },
        }
    }
}

/// What the user reads of a `CoverError`.
pub open spec fn cover_error_message(error: CoverErrorView) -> Seq<char> {
    match error {
        CoverErrorView::GetPodcast(e) =>
            "Failed to create cover and banner images\nUnable to get podcast\n"@
            + database_error_message(e),
        CoverErrorView::NoImage =>
            "Failed to create cover and banner images\nPodcast does not have an image"@,
        CoverErrorView::GetImage(e) =>
            "Failed to create cover and banner images\nUnable to get image:\n"@
            + http_error_message(e),
        CoverErrorView::Image(e) =>
            "Failed to create cover and banner images\nUnable to create image:\n"@
            + image_error_message(e),
    }
}

impl CoverError {
    /// Writes the error out for the user.
    pub fn message(&self) -> (text: String)
        ensures
            text@ == cover_error_message(self@),
    {
        match self {
            CoverError::GetPodcast(e) => {
                let mut out = chars_of("Failed to create cover and banner images\nUnable to get podcast\n");
                push_str(&mut out, e.message().as_str());
                string_from_chars(&out)
            },
            CoverError::NoImage => {
                let mut out = chars_of("Failed to create cover and banner images\nPodcast does not have an image");
                string_from_chars(&out)
            },
            CoverError::GetImage(e) => {
                let mut out = chars_of("Failed to create cover and banner images\nUnable to get image:\n");
                push_str(&mut out, e.message().as_str());
                string_from_chars(&out)
            },
            CoverError::Image(e) => {
                let mut out = chars_of("Failed to create cover and banner images\nUnable to create image:\n");
                push_str(&mut out, e.message().as_str());
                string_from_chars(&out)
            },
        }
    }
}

} // verus!
