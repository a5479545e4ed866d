//! One episode, and the names that the archive derives from it.

use crate::text::{
    chars_of, push_chars, str_eq, string_from_chars, trim_chars, trimmed,
    zero_padded, zero_padded_chars,
};
use crate::timestamp::Timestamp;
use crate::utils::sanitizer::{sanitized, Sanitizer};
use crate::web::{opt_url, Url, UrlView};
use vstd::prelude::*;
use vstd::std_specs::convert::FromSpecImpl;

verus! {

/// Episode type
#[derive(Clone, Copy, Debug, PartialEq, Eq, Structural)]
pub enum EpisodeType {
    /// Complete content
    Full,
    /// Short promotional piece
    Trailer,
    /// Extra content
    Bonus,
}

/// The episode type that a feed's word stands for.
pub open spec fn episode_type_of(word: Seq<char>) -> EpisodeType {
    if word == "full"@ {
        EpisodeType::Full
    } else if word == "trailer"@ {
        EpisodeType::Trailer
    } else {
        EpisodeType::Bonus
    }
}

/// The word that a feed uses for an episode type.
pub open spec fn episode_type_word(episode_type: EpisodeType) -> Seq<char> {
    match episode_type {
        EpisodeType::Full => "full"@,
        EpisodeType::Trailer => "trailer"@,
        EpisodeType::Bonus => "bonus"@,
    }
}

impl Default for EpisodeType {
    fn default() -> (episode_type: Self)
        ensures
            episode_type == EpisodeType::Full,
    {
        EpisodeType::Full
    }
}

impl From<String> for EpisodeType {
    fn from(value: String) -> (episode_type: Self) {
        if str_eq(value.as_str(), "full") {
            EpisodeType::Full
        } else if str_eq(value.as_str(), "trailer") {
            EpisodeType::Trailer
        } else {
            EpisodeType::Bonus
        }
    }
}

impl FromSpecImpl<String> for EpisodeType {
    open spec fn obeys_from_spec() -> bool {
        true
    }

    open spec fn from_spec(value: String) -> Self {
        episode_type_of(value@)
    }
}

impl EpisodeType {
    /// The word that a feed uses for this type, in lower case.
    pub fn as_lowercase(&self) -> (word: &'static str)
        ensures
            word@ == episode_type_word(*self),
    {
        match self {
            EpisodeType::Full => "full",
            EpisodeType::Trailer => "trailer",
            EpisodeType::Bonus => "bonus",
        }
    }
}

/// An episode of a podcast.
#[derive(Debug)]
pub struct Episode {
    /// GUID
    pub id: String,
    /// Title
    pub title: String,
    /// HTML formatted description
    pub description: String,
    /// URL of media file including a file extension
    pub audio_url: Url,
    /// Size of audio file in bytes
    pub audio_file_size: u64,
    /// Mime type of audio file
    pub audio_content_type: String,
    /// Duration in seconds
    pub duration: Option<u64>,
    /// URL of JPEG or PNG artwork
    pub image_url: Option<Url>,
    /// Parental advisory information
    pub explicit: bool,
    /// Episode type
    pub episode_type: EpisodeType,
    /// Season number
    pub season: Option<usize>,
    /// Episode number
    pub number: Option<usize>,
    /// Date and time episode was released
    pub published_at: Timestamp,
}

/// What an `Episode` holds, as mathematical values.
pub struct EpisodeView {
    pub id: Seq<char>,
    pub title: Seq<char>,
    pub description: Seq<char>,
    pub audio_url: UrlView,
    pub audio_file_size: u64,
    pub audio_content_type: Seq<char>,
    pub duration: Option<u64>,
    pub image_url: Option<UrlView>,
    pub explicit: bool,
    pub episode_type: EpisodeType,
    pub season: Option<usize>,
    pub number: Option<usize>,
    pub published_at: Timestamp,
}

impl View for Episode {
    type V = EpisodeView;

    open spec fn view(&self) -> EpisodeView {
        EpisodeView {
            id: self.id@,
            title: self.title@,
            description: self.description@,
            audio_url: self.audio_url@,
            audio_file_size: self.audio_file_size,
            audio_content_type: self.audio_content_type@,
            duration: self.duration,
            image_url: opt_url(self.image_url),
            explicit: self.explicit,
            episode_type: self.episode_type,
            season: self.season,
            number: self.number,
            published_at: self.published_at,
        }
    }
}

/// The views of a sequence of episodes.
pub open spec fn episode_views(episodes: Seq<Episode>) -> Seq<EpisodeView> {
    episodes.map_values(|e: Episode| e@)
}

/// The views of a sequence with one more episode are the views of the
/// sequence with one more view.
pub proof fn lemma_episode_views_push(episodes: Seq<Episode>, episode: Episode)
    ensures
        episode_views(episodes.push(episode)) == episode_views(episodes).push(episode@),
{
}

/// The episode number in four digits, or four underscores where there is none.
pub open spec fn padded_number(number: Option<usize>) -> Seq<char> {
    match number {
        Some(n) => zero_padded(n as nat, 4),
        None => seq!['_', '_', '_', '_'],
    }
}

/// `S` and the season number in two digits; season 0 where there is none.
pub open spec fn formatted_season(season: Option<usize>) -> Seq<char> {
    seq!['S'] + zero_padded(
        match season {
            Some(s) => s as nat,
            None => 0,
        },
        2,
    )
}

/// The title without the characters that a file name may not hold, and without
/// white space at either end.
pub open spec fn sanitized_title(title: Seq<char>) -> Seq<char> {
    trimmed(sanitized(title))
}

/// The archive's file stem: date, number and title, parted by single spaces.
pub open spec fn file_stem(date: Seq<char>, number: Option<usize>, title: Seq<char>) -> Seq<char> {
    date + seq![' '] + padded_number(number) + seq![' '] + sanitized_title(title)
}

/// The file stem for a date that is already written out.
pub fn file_stem_for(date: &str, number: Option<usize>, title: &str) -> (stem: String)
    ensures
        stem@ == file_stem(date@, number, title@),
{
    let mut out = chars_of(date);
    out.push(' ');
    push_chars(&mut out, &padded_number_chars(number));
    out.push(' ');
    let clean = Sanitizer::execute_chars(&chars_of(title));
    push_chars(&mut out, &trim_chars(&clean));
    string_from_chars(&out)
}

fn padded_number_chars(number: Option<usize>) -> (out: Vec<char>)
    ensures
        out@ == padded_number(number),
{
    match number {
        Some(n) => zero_padded_chars(n as u64, 4),
        None => {
            let mut out: Vec<char> = Vec::new();
            out.push('_');
            out.push('_');
            out.push('_');
            out.push('_');
            out
        },
    }
}

impl Episode {
    /// The stem of the episode's file in the archive.
    pub open spec fn spec_file_stem(view: EpisodeView) -> Seq<char> {
        file_stem(view.published_at.spec_date(), view.number, view.title)
    }

    /// The stem of the episode's file in the archive: its date, its number in
    /// four digits and its sanitized title.
    pub fn get_file_stem(&self) -> (stem: String)
        ensures
            stem@ == Self::spec_file_stem(self@),
    {
        let date = self.get_formatted_date();
        file_stem_for(date.as_str(), self.number, self.title.as_str())
    }

    /// The episode number in four digits, or `____` where it has none.
    pub fn get_padded_number(&self) -> (number: String)
        ensures
            number@ == padded_number(self.number),
    {
        string_from_chars(&padded_number_chars(self.number))
    }

    /// `S` and the season in two digits, `S00` where the episode has none.
    pub fn get_formatted_season(&self) -> (season: String)
        ensures
            season@ == formatted_season(self.season),
    {
        Self::format_season(self.season)
    }

    /// `S` and `season` in two digits, `S00` for `None`.
    pub fn format_season(season: Option<usize>) -> (text: String)
        ensures
            text@ == formatted_season(season),
    {
        let number: u64 = match season {
            Some(s) => s as u64,
            None => 0,
        };
        let mut out: Vec<char> = Vec::new();
        out.push('S');
        push_chars(&mut out, &zero_padded_chars(number, 2));
        string_from_chars(&out)
    }

    /// The day of publication as year, month and day, on the clock of the
    /// time stamp.
    pub fn get_formatted_date(&self) -> (date: String)
        ensures
            date@ == self.published_at.spec_date(),
    {
        self.published_at.date()
    }

    /// The title as it stands in a file name.
    pub fn get_sanitized_title(&self) -> (title: String)
        ensures
            title@ == sanitized_title(self.title@),
    {
        let clean = Sanitizer::execute_chars(&chars_of(self.title.as_str()));
        string_from_chars(&trim_chars(&clean))
    }

    /// A copy of this episode.
    pub fn duplicate(&self) -> (copy: Episode)
        ensures
            copy@ == self@,
    {
        let image_url = match &self.image_url {
            Some(url) => Some(url.duplicate()),
            None => None,
        };
        Episode {
            id: self.id.clone(),
            title: self.title.clone(),
            description: self.description.clone(),
            audio_url: self.audio_url.duplicate(),
            audio_file_size: self.audio_file_size,
            audio_content_type: self.audio_content_type.clone(),
            duration: self.duration,
            image_url,
            explicit: self.explicit,
            episode_type: self.episode_type,
            season: self.season,
            number: self.number,
            published_at: self.published_at,
        }
    }
}

} // verus!
