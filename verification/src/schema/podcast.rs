//! A podcast with its episodes.

use crate::schema::episode::{episode_views, lemma_episode_views_push, Episode, EpisodeView};
use crate::text::{opt_text, str_eq};
use crate::timestamp::Timestamp;
use crate::web::{opt_url, Url, UrlView};
use vstd::prelude::*;
use vstd::std_specs::convert::FromSpecImpl;

verus! {

/// Episodic or Serial
#[derive(Clone, Copy, Debug, PartialEq, Eq, Structural)]
pub enum PodcastType {
    /// Episodes are meant to be heard in any order.
    Episodic,
    /// Episodes are meant to be heard in sequence.
    Serial,
}

/// The podcast type that a feed's word stands for.
pub open spec fn podcast_type_of(word: Seq<char>) -> PodcastType {
    if word == "serial"@ {
        PodcastType::Serial
    } else {
        PodcastType::Episodic
    }
}

/// The word that a feed uses for a podcast type.
pub open spec fn podcast_type_word(podcast_type: PodcastType) -> Seq<char> {
    match podcast_type {
        PodcastType::Episodic => "episodic"@,
        PodcastType::Serial => "serial"@,
    }
}

impl Default for PodcastType {
    fn default() -> (podcast_type: Self)
        ensures
            podcast_type == PodcastType::Episodic,
    {
        PodcastType::Episodic
    }
}

impl From<String> for PodcastType {
    fn from(value: String) -> (podcast_type: Self) {
        if str_eq(value.as_str(), "serial") {
            PodcastType::Serial
        } else {
            PodcastType::Episodic
        }
    }
}

impl FromSpecImpl<String> for PodcastType {
    open spec fn obeys_from_spec() -> bool {
        true
    }

    open spec fn from_spec(value: String) -> Self {
        podcast_type_of(value@)
    }
}

impl PodcastType {
    /// The word that a feed uses for this type, in lower case.
    pub fn as_lowercase(&self) -> (word: &'static str)
        ensures
            word@ == podcast_type_word(*self),
    {
        match self {
            PodcastType::Episodic => "episodic",
            PodcastType::Serial => "serial",
        }
    }
}

/// Podcast or Channel
#[derive(Debug)]
pub struct Podcast {
    /// Local file system ID
    pub id: String,
    /// GUID
    pub guid: String,
    /// Title
    pub title: String,
    /// HTML formatted description
    pub description: String,
    /// URL of JPEG or PNG artwork
    pub image_url: Option<Url>,
    /// ISO 639-2 code for language
    pub language: String,
    /// Category
    pub category: Option<String>,
    /// Sub-category
    pub sub_category: Option<String>,
    /// Parental advisory information
    pub explicit: bool,
    /// Group responsible for creating the show
    pub author: Option<String>,
    /// Website
    pub link: Url,
    /// Episodic or Serial
    pub podcast_type: PodcastType,
    /// Copyright details
    pub copyright: Option<String>,
    /// When the show was created
    pub created_at: Timestamp,
    /// The episodes, in the order of the source
    pub episodes: Vec<Episode>,
}

/// What a `Podcast` holds, as mathematical values.
pub struct PodcastView {
    pub id: Seq<char>,
    pub guid: Seq<char>,
    pub title: Seq<char>,
    pub description: Seq<char>,
    pub image_url: Option<UrlView>,
    pub language: Seq<char>,
    pub category: Option<Seq<char>>,
    pub sub_category: Option<Seq<char>>,
    pub explicit: bool,
    pub author: Option<Seq<char>>,
    pub link: UrlView,
    pub podcast_type: PodcastType,
    pub copyright: Option<Seq<char>>,
    pub created_at: Timestamp,
    pub episodes: Seq<EpisodeView>,
}

impl View for Podcast {
    type V = PodcastView;

    open spec fn view(&self) -> PodcastView {
        PodcastView {
            id: self.id@,
            guid: self.guid@,
            title: self.title@,
            description: self.description@,
            image_url: opt_url(self.image_url),
            language: self.language@,
            category: opt_text(self.category),
            sub_category: opt_text(self.sub_category),
            explicit: self.explicit,
            author: opt_text(self.author),
            link: self.link@,
            podcast_type: self.podcast_type,
            copyright: opt_text(self.copyright),
            created_at: self.created_at,
            episodes: episode_views(self.episodes@),
        }
    }
}

/// Whether no two episodes of the sequence share an id.
pub open spec fn unique_ids(episodes: Seq<EpisodeView>) -> bool {
    forall|i: int, j: int|
        0 <= i < j < episodes.len() ==> (#[trigger] episodes[i]).id != (#[trigger] episodes[j]).id
}

/// Copies a list of episodes.
pub fn duplicate_episodes(episodes: &Vec<Episode>) -> (copy: Vec<Episode>)
    ensures
        episode_views(copy@) == episode_views(episodes@),
{
    let mut copy: Vec<Episode> = Vec::new();
    let mut i: usize = 0;
    while i < episodes.len()
        invariant
            i <= episodes.len(),
            episode_views(copy@) == episode_views(episodes@.take(i as int)),
        decreases episodes.len() - i,
    {
        let ghost before = copy@;
        let episode = episodes[i].duplicate();
        proof {
            lemma_episode_views_push(before, episode);
            lemma_episode_views_push(episodes@.take(i as int), episodes@[i as int]);
        }
        copy.push(episode);
        i += 1;
    }
    copy
}

impl Podcast {
    /// Whether each episode has an id of its own.
    pub open spec fn well_formed(view: PodcastView) -> bool {
        unique_ids(view.episodes)
    }

    /// Tests whether each episode has an id of its own.
    pub fn has_unique_ids(&self) -> (unique: bool)
        ensures
            unique == Self::well_formed(self@),
    {
        let mut j: usize = 0;
        while j < self.episodes.len()
            invariant
                j <= self.episodes.len(),
                forall|a: int, b: int|
                    0 <= a < b < j ==> (#[trigger] self@.episodes[a]).id != (
                    #[trigger] self@.episodes[b]).id,
            decreases self.episodes.len() - j,
        {
            let mut i: usize = 0;
            while i < j
                invariant
                    i <= j < self.episodes.len(),
                    forall|a: int| 0 <= a < i ==> (#[trigger] self@.episodes[a]).id != self@.episodes[j as int].id,
                decreases j - i,
            {
                if self.episodes[i].id == self.episodes[j].id {
                    assert(self@.episodes[i as int].id == self@.episodes[j as int].id);
                    return false;
                }
                i += 1;
            }
            j += 1;
        }
        true
    }

    /// A copy of this podcast.
    pub fn duplicate(&self) -> (copy: Podcast)
        ensures
            copy@ == self@,
    {
        let image_url = match &self.image_url {
            Some(url) => Some(url.duplicate()),
            None => None,
        };
        Podcast {
            id: self.id.clone(),
            guid: self.guid.clone(),
            title: self.title.clone(),
            description: self.description.clone(),
            image_url,
            language: self.language.clone(),
            category: self.category.clone(),
            sub_category: self.sub_category.clone(),
            explicit: self.explicit,
            author: self.author.clone(),
            link: self.link.duplicate(),
            podcast_type: self.podcast_type,
            copyright: self.copyright.clone(),
            created_at: self.created_at,
            episodes: duplicate_episodes(&self.episodes),
        }
    }
}

} // verus!
