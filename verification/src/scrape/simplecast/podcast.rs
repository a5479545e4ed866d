//! The show as the API describes it, and the podcast that it becomes.

use crate::schema::episode::EpisodeView;
use crate::schema::podcast::{podcast_type_of, Podcast, PodcastType, PodcastView};
use crate::scrape::simplecast::shared::{SimplecastAuthors, SimplecastCount, SimplecastSite};
use crate::text::opt_text;
use crate::timestamp::Timestamp;
use crate::web::{opt_url, Url};
use vstd::prelude::*;

verus! {

/// The document of a show.
#[derive(Debug)]
pub struct SimplecastPodcast {
    pub id: String,
    pub title: String,
    pub description: String,
    pub image_url: Option<Url>,
    pub language: String,
    pub is_explicit: bool,
    pub podcast_type: String,
    pub site: SimplecastSite,
    pub authors: SimplecastAuthors,
    pub copyright: Option<String>,
    pub created_at: Timestamp,
    pub episodes: SimplecastCount,
}

impl SimplecastPodcast {
    /// The name of the first author, if the show names any.
    pub open spec fn first_author(self) -> Option<Seq<char>> {
        if self.authors.collection@.len() > 0 {
            Some(self.authors.collection@[0].name@)
        } else {
            None
        }
    }

    /// The podcast that the show becomes, with the id and the episodes that
    /// it is given: the show's own id is kept as the GUID, its site's
    /// external address is the link, its first author the author.
    pub open spec fn podcast(self, id: Seq<char>, episodes: Seq<EpisodeView>) -> PodcastView {
        PodcastView {
            id,
            guid: self.id@,
            title: self.title@,
            description: self.description@,
            image_url: opt_url(self.image_url),
            language: self.language@,
            category: None,
            sub_category: None,
            explicit: self.is_explicit,
            author: self.first_author(),
            link: self.site.external_website@,
            podcast_type: podcast_type_of(self.podcast_type@),
            copyright: opt_text(self.copyright),
            created_at: self.created_at,
            episodes,
        }
    }

    /// Turns the show into a podcast without id and episodes.
    pub fn into_podcast(self) -> (podcast: Podcast)
        ensures
            podcast@ == self.podcast(Seq::empty(), Seq::empty()),
    {
        let author = if self.authors.collection.len() > 0 {
            Some(self.authors.collection[0].name.clone())
        } else {
            None
        };
        let podcast_type: PodcastType = PodcastType::from(self.podcast_type);
        let podcast = Podcast {
            id: String::new(),
            guid: self.id,
            title: self.title,
            description: self.description,
            image_url: self.image_url,
            language: self.language,
            category: None,
            sub_category: None,
            explicit: self.is_explicit,
            author,
            link: self.site.external_website,
            podcast_type,
            copyright: self.copyright,
            created_at: self.created_at,
            episodes: Vec::new(),
        };
        assert(podcast@.episodes == Seq::<EpisodeView>::empty());
        podcast
    }
}

} // verus!
