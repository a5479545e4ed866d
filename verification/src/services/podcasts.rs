//! Where the record of a podcast is kept.

use crate::path::{append_extension, join, joined, with_extension};
use crate::schema::podcast::Podcast;
use crate::services::paths::PathProvider;
use crate::text::{chars_of, push_str, string_from_chars};
use vstd::prelude::*;

verus! {

/// What went wrong with the record of a podcast.
#[derive(Debug)]
pub enum DatabaseError {
    /// No record is kept under the id.
    NotFound(String),
    /// The record's file could not be read or written.
    Io(String, String),
    /// The podcast could not be written as a record.
    Serialization(String, String),
    /// The record's file holds no podcast.
    Deserialization(String, String),
}

/// What a `DatabaseError` holds, as mathematical values.
pub enum DatabaseErrorView {
    NotFound(Seq<char>),
    Io(Seq<char>, Seq<char>),
    Serialization(Seq<char>, Seq<char>),
    Deserialization(Seq<char>, Seq<char>),
}

impl View for DatabaseError {
    type V = DatabaseErrorView;

    open spec fn view(&self) -> DatabaseErrorView {
        match self {
            DatabaseError::NotFound(id) => DatabaseErrorView::NotFound(id@),
            DatabaseError::Io(path, cause) => DatabaseErrorView::Io(path@, cause@),
            DatabaseError::Serialization(path, cause) => DatabaseErrorView::Serialization(
                path@,
                cause@,
            ),
            DatabaseError::Deserialization(path, cause) => DatabaseErrorView::Deserialization(
                path@,
                cause@,
            ),
        }
    }
}

/// The records of the podcasts, one file for each id.
#[derive(Debug)]
pub struct PodcastProvider {
    dir: String,
}

impl View for PodcastProvider {
    type V = Seq<char>;

    /// The directory of the records.
    closed spec fn view(&self) -> Seq<char> {
        self.dir@
    }
}

/// The file of the record with an id: the id below the directory, with the
/// extension `yml`.
pub open spec fn record_path(dir: Seq<char>, id: Seq<char>) -> Seq<char> {
    with_extension(joined(dir, id), "yml"@)
}

impl Default for PodcastProvider {
    fn default() -> (podcasts: Self)
        ensures
            podcasts@ == joined("cache"@, "podcasts"@),
    {
        Self { dir: PathProvider::default().get_podcast_dir() }
    }
}

impl PodcastProvider {
    /// The records that lie in `dir`.
    pub fn new(dir: String) -> (podcasts: Self)
        ensures
            podcasts@ == dir@,
    {
        Self { dir }
    }

    /// The file of the record with an id.
    pub fn get_path(&self, id: &str) -> (path: String)
        ensures
            path@ == record_path(self@, id@),
    {
        append_extension(join(self.dir.as_str(), id).as_str(), "yml")
    }

    /// Decides a read: the file to read where the record exists, else the
    /// error that names the id.
    pub fn get(&self, id: &str, exists: bool) -> (found: Result<String, DatabaseError>)
        ensures
            exists ==> (found matches Ok(path) && path@ == record_path(self@, id@)),
            !exists ==> (found matches Err(e) && e@ == DatabaseErrorView::NotFound(id@)),
    {
        if !exists {
            return Err(DatabaseError::NotFound(id.to_owned()));
        }
        Ok(self.get_path(id))
    }

    /// The file to which the record of a podcast is written: that of its id.
    pub fn put(&self, podcast: &Podcast) -> (path: String)
        ensures
            path@ == record_path(self@, podcast@.id),
    {
        self.get_path(podcast.id.as_str())
    }
}

/// What the user reads of a `DatabaseError`.
pub open spec fn database_error_message(error: DatabaseErrorView) -> Seq<char> {
    match error {
        DatabaseErrorView::NotFound(id) => "Podcast not found: "@ + id,
        DatabaseErrorView::Io(path, cause) =>
            "An I/O error occurred.\nPath: "@ + path + "\n"@ + cause,
        DatabaseErrorView::Serialization(path, cause) =>
            "A serialization error occurred.\nPath: "@ + path + "\n"@ + cause,
        DatabaseErrorView::Deserialization(path, cause) =>
            "A deserialization error occurred.\nPath: "@ + path + "\n"@ + cause,
    }
}

impl DatabaseError {
    /// Writes the error out for the user.
    pub fn message(&self) -> (text: String)
        ensures
            text@ == database_error_message(self@),
    {
        match self {
            DatabaseError::NotFound(id) => {
                let mut out = chars_of("Podcast not found: ");
                push_str(&mut out, id.as_str());
                string_from_chars(&out)
            },
            DatabaseError::Io(path, cause) => {
                let mut out = chars_of("An I/O error occurred.\nPath: ");
                push_str(&mut out, path.as_str());
                push_str(&mut out, "\n");
                push_str(&mut out, cause.as_str());
                string_from_chars(&out)
            },
            DatabaseError::Serialization(path, cause) => {
                let mut out = chars_of("A serialization error occurred.\nPath: ");
                push_str(&mut out, path.as_str());
                push_str(&mut out, "\n");
                push_str(&mut out, cause.as_str());
                string_from_chars(&out)
            },
            DatabaseError::Deserialization(path, cause) => {
                let mut out = chars_of("A deserialization error occurred.\nPath: ");
                push_str(&mut out, path.as_str());
                push_str(&mut out, "\n");
                push_str(&mut out, cause.as_str());
                string_from_chars(&out)
            },
        }
    }
}

} // verus!
