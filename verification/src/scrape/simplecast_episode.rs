//! An episode as the API describes it, and the episode that it becomes.

use crate::schema::episode::{episode_type_of, Episode as ArchiveEpisode, EpisodeType, EpisodeView};
use crate::timestamp::Timestamp;
use crate::web::Url;
use vstd::prelude::*;

verus! {

/// The document of an episode.
#[derive(Debug)]
pub struct Episode {
    pub long_description: String,
    pub audio_status: String,
    pub image_url: Url,
    pub episode_type: String,
    pub token: String,
    pub description: String,
    pub slug: String,
    pub number: u32,
    pub audio_file: AudioFile,
    pub title: String,
    pub episode_url: String,
    pub audio_file_size: u64,
    pub published_at: Timestamp,
    pub href: Url,
    pub audio_file_path: String,
    pub enclosure_url: Url,
    pub id: String,
    pub podcast: Podcast,
}

/// The audio file of an episode.
#[derive(Debug)]
pub struct AudioFile {
    pub url: String,
    pub size: u64,
    pub path_tc: String,
    pub path: String,
    pub name: String,
    pub href: Url,
}

/// The show that an episode belongs to, in short.
#[derive(Debug)]
pub struct Podcast {
    pub href: Url,
    pub title: String,
    pub image_url: Url,
    pub id: String,
    pub episodes: Count,
    pub display_owner_email: bool,
    pub created_at: Timestamp,
    pub account_id: String,
}

/// A number of episodes.
#[derive(Clone, Copy, Debug)]
pub struct Count {
    pub count: u32,
}

/// The content type of the audio that the platform serves.
pub const AUDIO_CONTENT_TYPE: &'static str = "audio/mpeg";

impl Episode {
    /// The archive's episode that this one becomes: the long description is
    /// the description, the enclosure the audio.
    pub open spec fn episode(self) -> EpisodeView {
        EpisodeView {
            id: self.id@,
            title: self.title@,
            description: self.long_description@,
            audio_url: self.enclosure_url@,
            audio_file_size: self.audio_file_size,
            audio_content_type: AUDIO_CONTENT_TYPE@,
            duration: None,
            image_url: Some(self.image_url@),
            explicit: false,
            episode_type: episode_type_of(self.episode_type@),
            season: None,
            number: Some(self.number as usize),
            published_at: self.published_at,
        }
    }

    /// Turns the API's episode into the archive's.
    pub fn into_episode(self) -> (episode: ArchiveEpisode)
        ensures
            episode@ == self.episode(),
    {
        let episode_type: EpisodeType = EpisodeType::from(self.episode_type);
        ArchiveEpisode {
            id: self.id,
            title: self.title,
            description: self.long_description,
            audio_url: self.enclosure_url,
            audio_file_size: self.audio_file_size,
            audio_content_type: AUDIO_CONTENT_TYPE.to_owned(),
            duration: None,
            image_url: Some(self.image_url),
            explicit: false,
            episode_type,
            season: None,
            number: Some(self.number as usize),
            published_at: self.published_at,
        }
    }
}

/// The archive's episodes that the API's episodes become, in order.
pub open spec fn converted(episodes: Seq<Episode>) -> Seq<EpisodeView> {
    episodes.map_values(|e: Episode| e.episode())
}

} // verus!
