//! The scrape command: which path of discovery a seed URL takes.

use crate::schema::feed::{
    convert_error_message, podcast_of, Channel, ChannelView, PodcastConvertError,
    PodcastConvertErrorView,
};
use crate::schema::podcast::{Podcast, PodcastView};
use crate::scrape::scrape_simplecast::{
    simplecast_error_message, ScrapeSimplecastError, ScrapeSimplecastErrorView,
};
use crate::services::http::{
    http_error_message, HttpClient, HttpError, HttpErrorView, XML_EXTENSION,
};
use crate::services::podcasts::{
    database_error_message, DatabaseError, DatabaseErrorView, PodcastProvider,
};
use crate::text::{chars_of, push_str, str_eq, string_from_chars};
use crate::timestamp::Timestamp;
use vstd::prelude::*;

verus! {

/// The command that finds the podcast behind a seed URL.
#[derive(Debug)]
pub struct ScrapeCommand {
    http: HttpClient,
    podcasts: PodcastProvider,
}

/// The kind of document behind a seed URL.
#[derive(Clone, Copy, Debug, PartialEq, Eq, Structural)]
pub enum Source {
    /// A feed, which holds the podcast and all its episodes.
    Feed,
    /// A page that embeds the platform's player.
    Player,
}

/// Why a feed did not become a podcast.
#[derive(Debug)]
pub enum ScrapeRssError {
    /// The feed could not be fetched.
    Xml(HttpError),
    /// The cached feed of the podcast could not be read from the path.
    IO(String, String, String),
    /// The document is no feed.
    Parse(String),
    /// The feed lacks what a podcast needs.
    Convert(PodcastConvertError),
}

/// What a `ScrapeRssError` holds, as mathematical values.
pub enum ScrapeRssErrorView {
    Xml(HttpErrorView),
    IO(Seq<char>, Seq<char>, Seq<char>),
    Parse(Seq<char>),
    Convert(PodcastConvertErrorView),
}

impl View for ScrapeRssError {
    type V = ScrapeRssErrorView;

    open spec fn view(&self) -> ScrapeRssErrorView {
        match self {
            ScrapeRssError::Xml(e) => ScrapeRssErrorView::Xml(e@),
            ScrapeRssError::IO(id, path, cause) => ScrapeRssErrorView::IO(id@, path@, cause@),
            ScrapeRssError::Parse(cause) => ScrapeRssErrorView::Parse(cause@),
            ScrapeRssError::Convert(e) => ScrapeRssErrorView::Convert(e@),
        }
    }
}

/// Why the scrape failed.
#[derive(Debug)]
pub enum ScrapeError {
    /// The content type of the seed URL could not be fetched.
    Head(HttpError),
    /// The player path failed.
    Simplecast(ScrapeSimplecastError),
    /// The feed path failed.
    Rss(ScrapeRssError),
    /// The podcast could not be saved.
    Save(DatabaseError),
    /// An answer arrived that the traversal had not asked for.
    OutOfTurn,
}

/// What a `ScrapeError` holds, as mathematical values.
pub enum ScrapeErrorView {
    Head(HttpErrorView),
    Simplecast(ScrapeSimplecastErrorView),
    Rss(ScrapeRssErrorView),
    Save(DatabaseErrorView),
    OutOfTurn,
}

impl View for ScrapeError {
    type V = ScrapeErrorView;

    open spec fn view(&self) -> ScrapeErrorView {
        match self {
            ScrapeError::Head(e) => ScrapeErrorView::Head(e@),
            ScrapeError::Simplecast(e) => ScrapeErrorView::Simplecast(e@),
            ScrapeError::Rss(e) => ScrapeErrorView::Rss(e@),
            ScrapeError::Save(e) => ScrapeErrorView::Save(e@),
            ScrapeError::OutOfTurn => ScrapeErrorView::OutOfTurn,
        }
    }
}

/// The content type of a feed.
pub open spec fn feed_content_type() -> Seq<char> {
    "application/xml"@
}

/// The path that a seed URL with a content type takes.
pub open spec fn source_of(content_type: Seq<char>) -> Source {
    if content_type == feed_content_type() {
        Source::Feed
    } else {
        Source::Player
    }
}

/// The podcast with another id.
pub open spec fn with_id(podcast: PodcastView, id: Seq<char>) -> PodcastView {
    PodcastView { id, ..podcast }
}

impl ScrapeCommand {
    /// The directory of the cache.
    pub closed spec fn http(&self) -> Seq<char> {
        self.http@
    }

    /// The directory of the records.
    pub closed spec fn podcasts(&self) -> Seq<char> {
        self.podcasts@
    }

    /// A command over the services that it is given.
    #[must_use]
    pub fn new(http: HttpClient, podcasts: PodcastProvider) -> (command: Self)
        ensures
            command.http() == http@,
            command.podcasts() == podcasts@,
    {
        Self { http, podcasts }
    }

    /// The cache.
    pub fn get_http(&self) -> (http: &HttpClient)
        ensures
            http@ == self.http(),
    {
        &self.http
    }

    /// The records.
    pub fn get_podcasts(&self) -> (podcasts: &PodcastProvider)
        ensures
            podcasts@ == self.podcasts(),
    {
        &self.podcasts
    }

    /// Selects the path of discovery from the content type of the seed URL:
    /// a feed is read as one, anything else is taken for a page with a
    /// player. A content type that could not be fetched ends the scrape.
    pub fn execute(&self, content_type: Result<String, HttpError>) -> (source: Result<
        Source,
        ScrapeError,
    >)
        ensures
            match content_type {
                Ok(text) => source == Ok::<Source, ScrapeError>(source_of(text@)),
                Err(e) => source is Err && source->Err_0@ == ScrapeErrorView::Head(e@),
            },
    {
        match content_type {
            Ok(text) => {
                if str_eq(text.as_str(), "application/xml") {
                    Ok(Source::Feed)
                } else {
                    Ok(Source::Player)
                }
            },
            Err(e) => Err(ScrapeError::Head(e)),
        }
    }

    /// The extension under which the feed path caches the seed URL.
    pub fn feed_extension(&self) -> (extension: &'static str)
        ensures
            extension@ == XML_EXTENSION@,
    {
        XML_EXTENSION
    }

    /// What the feed path finds: the podcast that the feed becomes, under the
    /// caller's id. A feed that could not be had is passed on as it is; one
    /// that lacks what a podcast needs is an error of its own kind.
    pub open spec fn rss_result(
        podcast_id: Seq<char>,
        feed: Result<ChannelView, ScrapeRssErrorView>,
        created_at: Timestamp,
    ) -> Result<PodcastView, ScrapeRssErrorView> {
        match feed {
            Err(e) => Err(e),
            Ok(channel) => match podcast_of(channel, created_at) {
                Ok(podcast) => Ok(with_id(podcast, podcast_id)),
                Err(e) => Err(ScrapeRssErrorView::Convert(e)),
            },
        }
    }

    /// Ends the feed path: the feed becomes a podcast, which gets the
    /// caller's id and the time given as the time of its creation.
    pub fn execute_rss(
        &self,
        podcast_id: &str,
        feed: Result<Channel, ScrapeRssError>,
        created_at: Timestamp,
    ) -> (found: Result<Podcast, ScrapeRssError>)
        ensures
            match found {
                Ok(p) => Self::rss_result(
                    podcast_id@,
                    match feed {
                        Ok(c) => Ok(c@),
                        Err(e) => Err(e@),
                    },
                    created_at,
                ) == Ok::<PodcastView, ScrapeRssErrorView>(p@),
                Err(e) => Self::rss_result(
                    podcast_id@,
                    match feed {
                        Ok(c) => Ok(c@),
                        Err(e) => Err(e@),
                    },
                    created_at,
                ) == Err::<PodcastView, ScrapeRssErrorView>(e@),
            },
    {
        match feed {
            Ok(channel) => match channel.into_podcast(created_at) {
                Ok(podcast) => {
                    let mut podcast = podcast;
                    podcast.id = podcast_id.to_owned();
                    Ok(podcast)
                },
                Err(e) => Err(ScrapeRssError::Convert(e)),
            },
            Err(e) => Err(e),
        }
    }

    /// The file to which the podcast that was found is saved.
    pub fn save(&self, podcast: &Podcast) -> (path: String)
        ensures
            path@ == crate::services::podcasts::record_path(self.podcasts(), podcast@.id),
    {
        self.podcasts.put(podcast)
    }
}

/// What the user reads of a `ScrapeRssError`.
pub open spec fn rss_error_message(error: ScrapeRssErrorView) -> Seq<char> {
    match error {
        ScrapeRssErrorView::Xml(e) =>
            "Failed to scrape\nUnable to get feed:\n"@ + http_error_message(e),
        ScrapeRssErrorView::IO(id, path, cause) =>
            "Failed to scrape\nAn I/O error occurred while processing episode: "@ + id
            + "\nPath: "@ + path + "\n"@ + cause,
        ScrapeRssErrorView::Parse(cause) => "Failed to scrape\nUnable to parse RSS\n"@ + cause,
        ScrapeRssErrorView::Convert(e) =>
            "Failed to scrape\nUnable to convert RSS\n"@ + convert_error_message(e),
    }
}

impl ScrapeRssError {
    /// Writes the error out for the user.
    pub fn message(&self) -> (text: String)
        ensures
            text@ == rss_error_message(self@),
    {
        match self {
            ScrapeRssError::Xml(e) => {
                let mut out = chars_of("Failed to scrape\nUnable to get feed:\n");
                push_str(&mut out, e.message().as_str());
                string_from_chars(&out)
            },
            ScrapeRssError::IO(id, path, cause) => {
                let mut out = chars_of("Failed to scrape\nAn I/O error occurred while processing episode: ");
                push_str(&mut out, id.as_str());
                push_str(&mut out, "\nPath: ");
                push_str(&mut out, path.as_str());
                push_str(&mut out, "\n");
                push_str(&mut out, cause.as_str());
                string_from_chars(&out)
            },
            ScrapeRssError::Parse(cause) => {
                let mut out = chars_of("Failed to scrape\nUnable to parse RSS\n");
                push_str(&mut out, cause.as_str());
                string_from_chars(&out)
            },
            ScrapeRssError::Convert(e) => {
                let mut out = chars_of("Failed to scrape\nUnable to convert RSS\n");
                push_str(&mut out, e.message().as_str());
                string_from_chars(&out)
            },
        }
    }
}

/// What the user reads of a `ScrapeError`.
pub open spec fn scrape_error_message(error: ScrapeErrorView) -> Seq<char> {
    match error {
        ScrapeErrorView::Head(e) =>
            "Failed to scrape\nUnable to get content type:\n"@ + http_error_message(e),
        ScrapeErrorView::Simplecast(e) => "Failed to scrape\n"@ + simplecast_error_message(e),
        ScrapeErrorView::Rss(e) => "Failed to scrape\n"@ + rss_error_message(e),
        ScrapeErrorView::Save(e) =>
            "Failed to scrape\nUnable to save: "@ + database_error_message(e),
        ScrapeErrorView::OutOfTurn =>
            "Failed to scrape\nAn answer arrived that was not asked for"@,
    }
}

impl ScrapeError {
    /// Writes the error out for the user.
    pub fn message(&self) -> (text: String)
        ensures
            text@ == scrape_error_message(self@),
    {
        match self {
            ScrapeError::Head(e) => {
                let mut out = chars_of("Failed to scrape\nUnable to get content type:\n");
                push_str(&mut out, e.message().as_str());
                string_from_chars(&out)
            },
            ScrapeError::Simplecast(e) => {
                let mut out = chars_of("Failed to scrape\n");
                push_str(&mut out, e.message().as_str());
                string_from_chars(&out)
            },
            ScrapeError::Rss(e) => {
                let mut out = chars_of("Failed to scrape\n");
                push_str(&mut out, e.message().as_str());
                string_from_chars(&out)
            },
            ScrapeError::Save(e) => {
                let mut out = chars_of("Failed to scrape\nUnable to save: ");
                push_str(&mut out, e.message().as_str());
                string_from_chars(&out)
            },
            ScrapeError::OutOfTurn => {
                "Failed to scrape\nAn answer arrived that was not asked for".to_owned()
            },
        }
    }
}

} // verus!
