//! Where the cache, the archive and the feeds lie.

use crate::path::{append_extension, join, joined, with_extension};
use crate::schema::episode::{formatted_season, Episode, EpisodeView};
use crate::services::http::{MP3_EXTENSION};
use crate::services::options::{AppOptions, AppOptionsView};
use crate::text::{signed_decimal_chars, signed_digits, string_from_chars};
use crate::utils::validation::{
    directory_error, error_views, lemma_error_views_push, optional, result_view, to_result,
    to_result_spec, Validate, ValidationError, ValidationErrorView,
};
use crate::web::{Url, UrlView};
use vstd::prelude::*;

verus! {

/// The file name of a feed.
pub const RSS_FILE_NAME: &'static str = "feed.xml";

/// Which of the directories of the options exist.
#[derive(Clone, Copy, Debug)]
pub struct DirectoryStatus {
    /// The cache directory is a directory.
    pub cache: bool,
    /// The directory of cached responses is a directory.
    pub http: bool,
    /// The directory of podcast records is a directory.
    pub podcasts: bool,
    /// The output directory is a directory.
    pub output: bool,
}

/// Where the audio of an episode is to be had.
#[derive(Debug)]
pub enum AudioLocation {
    /// At an address of the server.
    Url(Url),
    /// In a file, by its absolute path.
    File(String),
}

/// What an `AudioLocation` holds, as mathematical values.
pub enum AudioLocationView {
    Url(UrlView),
    File(Seq<char>),
}

impl View for AudioLocation {
    type V = AudioLocationView;

    open spec fn view(&self) -> AudioLocationView {
        match self {
            AudioLocation::Url(url) => AudioLocationView::Url(url@),
            AudioLocation::File(path) => AudioLocationView::File(path@),
        }
    }
}

/// The view of an optional location.
pub open spec fn opt_location(location: Option<AudioLocation>) -> Option<AudioLocationView> {
    match location {
        Some(l) => Some(l@),
        None => None,
    }
}

/// The paths of the cache, the archive and the feeds, as the options set them.
#[derive(Debug)]
pub struct PathProvider {
    options: AppOptions,
}

impl View for PathProvider {
    type V = AppOptionsView;

    /// The options that the paths are derived from.
    closed spec fn view(&self) -> AppOptionsView {
        self.options@
    }
}

impl Default for PathProvider {
    fn default() -> (paths: Self)
        ensures
            paths@ == (AppOptionsView {
                cache_dir: None,
                output_dir: None,
                server_base: None,
                expect_ip: None,
                expect_country: None,
            }),
    {
        PathProvider { options: AppOptions::default() }
    }
}

impl PathProvider {
    /// The cache directory: the option, or `cache`.
    pub open spec fn cache_dir(options: AppOptionsView) -> Seq<char> {
        match options.cache_dir {
            Some(dir) => dir,
            None => "cache"@,
        }
    }

    /// The directory of cached responses.
    pub open spec fn http_dir(options: AppOptionsView) -> Seq<char> {
        joined(Self::cache_dir(options), "http"@)
    }

    /// The directory of podcast records.
    pub open spec fn podcast_dir(options: AppOptionsView) -> Seq<char> {
        joined(Self::cache_dir(options), "podcasts"@)
    }

    /// The output directory: the option, or `output`.
    pub open spec fn output_dir(options: AppOptionsView) -> Seq<char> {
        match options.output_dir {
            Some(dir) => dir,
            None => "output"@,
        }
    }

    /// The extension of an episode's audio file: that of its URL, or `mp3`.
    pub open spec fn audio_extension(episode: EpisodeView) -> Seq<char> {
        match Url::file_name(episode.audio_url) {
            Some(name) => match crate::path::extension_of(name) {
                Some(e) => e,
                None => MP3_EXTENSION@,
            },
            None => MP3_EXTENSION@,
        }
    }

    /// The place of an episode's audio below the output directory: podcast,
    /// season, year, and the file stem with the extension.
    pub open spec fn sub_path_for_audio(podcast_id: Seq<char>, episode: EpisodeView) -> Seq<char> {
        with_extension(
            joined(
                joined(
                    joined(podcast_id, formatted_season(episode.season)),
                    signed_digits(episode.published_at.spec_year() as int),
                ),
                Episode::spec_file_stem(episode),
            ),
            Self::audio_extension(episode),
        )
    }

    /// The place of an episode's audio in the archive.
    pub open spec fn output_path_for_audio(
        options: AppOptionsView,
        podcast_id: Seq<char>,
        episode: EpisodeView,
    ) -> Seq<char> {
        joined(Self::output_dir(options), Self::sub_path_for_audio(podcast_id, episode))
    }

    /// Where the audio of an episode is to be had: below the server's base
    /// address, where the options name one; else in the archive below the
    /// working directory, where that is known.
    pub open spec fn url_for_audio(
        options: AppOptionsView,
        podcast_id: Seq<char>,
        episode: EpisodeView,
        current_dir: Option<Seq<char>>,
    ) -> Option<AudioLocationView> {
        match options.server_base {
            Some(base) => match Url::joined(base, Self::sub_path_for_audio(podcast_id, episode)) {
                Some(url) => Some(AudioLocationView::Url(url)),
                None => None,
            },
            None => match current_dir {
                Some(dir) => Some(
                    AudioLocationView::File(
                        joined(dir, Self::output_path_for_audio(options, podcast_id, episode)),
                    ),
                ),
                None => None,
            },
        }
    }

    /// The place of a feed: that of the whole podcast directly under the
    /// podcast's directory, that of a season, or of a year of a season, below it.
    pub open spec fn output_path_for_rss(
        options: AppOptionsView,
        podcast_id: Seq<char>,
        season: Option<usize>,
        year: Option<i32>,
    ) -> Seq<char> {
        let podcast = joined(Self::output_dir(options), podcast_id);
        if season is None && year is None {
            joined(podcast, RSS_FILE_NAME@)
        } else {
            let year_text = match year {
                Some(y) => signed_digits(y as int),
                None => Seq::empty(),
            };
            joined(joined(joined(podcast, formatted_season(season)), year_text), RSS_FILE_NAME@)
        }
    }

    /// What is wrong with the four directories, in the order cache, responses,
    /// records, output.
    pub open spec fn directory_errors(options: AppOptionsView, status: DirectoryStatus) -> Seq<
        ValidationErrorView,
    > {
        optional(directory_error("Cache directory"@, Self::cache_dir(options), status.cache))
            + optional(
            directory_error("HTTP cache directory"@, Self::http_dir(options), status.http),
        ) + optional(
            directory_error(
                "Podcasts cache directory"@,
                Self::podcast_dir(options),
                status.podcasts,
            ),
        ) + optional(directory_error("Output directory"@, Self::output_dir(options), status.output))
    }

    /// The paths that follow from the options.
    pub fn new(options: AppOptions) -> (paths: Self)
        ensures
            paths@ == options@,
    {
        Self { options }
    }

    /// The cache directory: the option, or `cache`.
    pub fn get_cache_dir(&self) -> (dir: String)
        ensures
            dir@ == Self::cache_dir(self@),
    {
        match &self.options.cache_dir {
            Some(dir) => dir.clone(),
            None => "cache".to_owned(),
        }
    }

    /// The directory of cached responses, `http` below the cache directory.
    pub fn get_http_dir(&self) -> (dir: String)
        ensures
            dir@ == Self::http_dir(self@),
    {
        join(self.get_cache_dir().as_str(), "http")
    }

    /// The directory of podcast records, `podcasts` below the cache directory.
    pub fn get_podcast_dir(&self) -> (dir: String)
        ensures
            dir@ == Self::podcast_dir(self@),
    {
        join(self.get_cache_dir().as_str(), "podcasts")
    }

    /// The output directory: the option, or `output`.
    pub fn get_output_dir(&self) -> (dir: String)
        ensures
            dir@ == Self::output_dir(self@),
    {
        match &self.options.output_dir {
            Some(dir) => dir.clone(),
            None => "output".to_owned(),
        }
    }

    /// The place of an episode's audio below the output directory.
    pub fn get_sub_path_for_audio(&self, podcast_id: &str, episode: &Episode) -> (path: String)
        ensures
            path@ == Self::sub_path_for_audio(podcast_id@, episode@),
    {
        let season = episode.get_formatted_season();
        let year = string_from_chars(&signed_decimal_chars(episode.published_at.year() as i64));
        let file_stem = episode.get_file_stem();
        let extension = match episode.audio_url.get_extension() {
            Some(e) => e,
            None => MP3_EXTENSION.to_owned(),
        };
        let in_season = join(podcast_id, season.as_str());
        let in_year = join(in_season.as_str(), year.as_str());
        let stem = join(in_year.as_str(), file_stem.as_str());
        append_extension(stem.as_str(), extension.as_str())
    }

    /// The place of an episode's audio in the archive.
    pub fn get_output_path_for_audio(&self, podcast_id: &str, episode: &Episode) -> (path: String)
        ensures
            path@ == Self::output_path_for_audio(self@, podcast_id@, episode@),
    {
        join(
            self.get_output_dir().as_str(),
            self.get_sub_path_for_audio(podcast_id, episode).as_str(),
        )
    }

    /// Where the audio of an episode is to be had, for the feed's enclosure.
    pub fn get_url_for_audio(
        &self,
        podcast_id: &str,
        episode: &Episode,
        current_dir: Option<&str>,
    ) -> (location: Option<AudioLocation>)
        ensures
            opt_location(location) == Self::url_for_audio(
                self@,
                podcast_id@,
                episode@,
                match current_dir {
                    Some(dir) => Some(dir@),
                    None => None,
                },
            ),
    {
        match &self.options.server_base {
            Some(base) => {
                let path = self.get_sub_path_for_audio(podcast_id, episode);
                match base.join(path.as_str()) {
                    Some(url) => Some(AudioLocation::Url(url)),
                    None => None,
                }
            },
            None => match current_dir {
                Some(dir) => Some(
                    AudioLocation::File(
                        join(dir, self.get_output_path_for_audio(podcast_id, episode).as_str()),
                    ),
                ),
                None => None,
            },
        }
    }

    /// The place of the feed of a podcast, of one of its seasons, or of one
    /// year of a season.
    pub fn get_output_path_for_rss(
        &self,
        podcast_id: &str,
        season: Option<usize>,
        year: Option<i32>,
    ) -> (path: String)
        requires
            podcast_id@.len() > 0,
        ensures
            path@ == Self::output_path_for_rss(self@, podcast_id@, season, year),
    {
        let path = join(self.get_output_dir().as_str(), podcast_id);
        if season.is_none() && year.is_none() {
            return join(path.as_str(), RSS_FILE_NAME);
        }
        let season = Episode::format_season(season);
        let year = match year {
            Some(y) => string_from_chars(&signed_decimal_chars(y as i64)),
            None => String::new(),
        };
        let in_season = join(path.as_str(), season.as_str());
        let in_year = join(in_season.as_str(), year.as_str());
        join(in_year.as_str(), RSS_FILE_NAME)
    }

    /// The place of a podcast's cover image.
    pub fn get_output_path_for_cover(&self, podcast_id: &str) -> (path: String)
        ensures
            path@ == joined(joined(Self::output_dir(self@), podcast_id@), "cover.jpg"@),
    {
        join(join(self.get_output_dir().as_str(), podcast_id).as_str(), "cover.jpg")
    }

    /// The place of a podcast's banner image.
    pub fn get_output_path_for_banner(&self, podcast_id: &str) -> (path: String)
        ensures
            path@ == joined(joined(Self::output_dir(self@), podcast_id@), "banner.jpg"@),
    {
        join(join(self.get_output_dir().as_str(), podcast_id).as_str(), "banner.jpg")
    }

    /// Checks the four directories, given which of them exist. The errors
    /// come in the order cache, responses, records, output.
    pub fn validate(&self, status: &DirectoryStatus) -> (result: Result<(), Vec<ValidationError>>)
        ensures
            result_view(result) == to_result_spec(Self::directory_errors(self@, *status)),
    {
        let mut errors: Vec<ValidationError> = Vec::new();
        let cache = self.get_cache_dir();
        push_error(&mut errors, Validate::directory("Cache directory", cache.as_str(), status.cache));
        let http = self.get_http_dir();
        push_error(
            &mut errors,
            Validate::directory("HTTP cache directory", http.as_str(), status.http),
        );
        let podcasts = self.get_podcast_dir();
        push_error(
            &mut errors,
            Validate::directory("Podcasts cache directory", podcasts.as_str(), status.podcasts),
        );
        let output = self.get_output_dir();
        push_error(
            &mut errors,
            Validate::directory("Output directory", output.as_str(), status.output),
        );
        to_result(errors)
    }
}

/// Adds the error of a check, if it found one.
pub fn push_error(errors: &mut Vec<ValidationError>, checked: Result<(), ValidationError>)
    ensures
        error_views(final(errors)@) == error_views(old(errors)@) + optional(
            match checked {
                Ok(()) => None,
                Err(e) => Some(e@),
            },
        ),
{
    match checked {
        Ok(()) => {
        },
        Err(e) => {
            proof {
                lemma_error_views_push(errors@, e);
            }
            errors.push(e);
        },
    }
}

} // verus!
