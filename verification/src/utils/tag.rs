//! The tags that are written to the file of an episode.

use crate::schema::episode::{Episode, EpisodeView};
use crate::schema::podcast::{Podcast, PodcastView};
use crate::text::{
    chars_of, decimal_chars, digits, opt_text, push_chars, string_from_chars, trim_chars, trimmed,
};
use vstd::prelude::*;

verus! {

/// Makes the tags of audio files.
pub struct Tag;

/// The fields of the tag of an episode.
#[derive(Debug)]
pub struct TagFields {
    pub title: String,
    pub artist: String,
    pub album: Option<String>,
    pub disk: u32,
    pub year: u32,
    pub track: Option<u32>,
    pub comment: String,
}

/// What `TagFields` holds, as mathematical values.
pub struct TagFieldsView {
    pub title: Seq<char>,
    pub artist: Seq<char>,
    pub album: Option<Seq<char>>,
    pub disk: u32,
    pub year: u32,
    pub track: Option<u32>,
    pub comment: Seq<char>,
}

impl View for TagFields {
    type V = TagFieldsView;

    open spec fn view(&self) -> TagFieldsView {
        TagFieldsView {
            title: self.title@,
            artist: self.artist@,
            album: opt_text(self.album),
            disk: self.disk,
            year: self.year,
            track: self.track,
            comment: self.comment@,
        }
    }
}

/// The tag of an episode of a podcast: the trimmed title, the podcast as the
/// artist, the season as the album and the disk, the year of publication,
/// the number as the track, and the description as the comment. Numbers that
/// do not fit 32 bits are cut to their lower 32 bits.
pub open spec fn tag_of(podcast: PodcastView, episode: EpisodeView) -> TagFieldsView {
    TagFieldsView {
        title: trimmed(episode.title),
        artist: podcast.title,
        album: match episode.season {
            Some(season) => Some("Season "@ + digits(season as nat)),
            None => None,
        },
        disk: match episode.season {
            Some(season) => season as u32,
            None => 0,
        },
        year: episode.published_at.spec_year() as u32,
        track: match episode.number {
            Some(number) => Some(number as u32),
            None => None,
        },
        comment: episode.description,
    }
}

impl Tag {
    /// The fields of the tag of an episode.
    pub fn create(podcast: &Podcast, episode: &Episode) -> (tag: TagFields)
        ensures
            tag@ == tag_of(podcast@, episode@),
    {
        let album = match episode.season {
            Some(season) => {
                let mut out = chars_of("Season ");
                push_chars(&mut out, &decimal_chars(season as u64));
                Some(string_from_chars(&out))
            },
            None => None,
        };
        let disk: u32 = match episode.season {
            Some(season) => #[verifier::truncate]
            (season as u32),
            None => 0,
        };
        let year: u32 = #[verifier::truncate]
        (episode.published_at.year() as u32);
        let track: Option<u32> = match episode.number {
            Some(number) => Some(#[verifier::truncate] (number as u32)),
            None => None,
        };
        TagFields {
            title: string_from_chars(&trim_chars(&chars_of(episode.title.as_str()))),
            artist: podcast.title.clone(),
            album,
            disk,
            year,
            track,
            comment: episode.description.clone(),
        }
    }
}

} // verus!
