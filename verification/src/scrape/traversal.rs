//! The traversal from a seed URL to a saved podcast, as a state machine: each
//! answer from the network or the disk is an event, and each event decides
//! what is asked next.

use crate::pipeline::{failures, successes};
use crate::schema::feed::Channel;
use crate::schema::podcast::Podcast;
use crate::scrape::scrape::{
    source_of, ScrapeCommand, ScrapeError, ScrapeErrorView, ScrapeRssError, ScrapeRssErrorView,
    Source,
};
use crate::scrape::scrape_simplecast::{
    address_url, episode_address, episode_guid, playlist_address, podcast_address, url_result,
    ScrapeSimplecastError, ScrapeSimplecastErrorView,
};
use crate::scrape::simplecast::podcast::SimplecastPodcast;
use crate::scrape::simplecast_episode::{converted, Episode as SimplecastEpisode};
use crate::scrape::simplecast_playlist::{
    Episode as SimplecastPlaylistEpisode, Playlist as SimplecastPlaylist,
};
use crate::services::http::{HttpError, XML_EXTENSION};
use crate::services::podcasts::{record_path, DatabaseError};
use crate::timestamp::Timestamp;
use crate::web::{Url, UrlView};
use vstd::prelude::*;

verus! {

/// Where a traversal stands: what it has asked for and waits to hear of.
#[derive(Debug)]
pub enum State {
    /// The content type of the seed URL.
    ContentType,
    /// The feed behind the seed URL.
    Feed,
    /// The page behind the seed URL.
    Page,
    /// The document of the episode that the page's player shows, by its id.
    Episode(String),
    /// The document of the show that the episode belongs to.
    Show(SimplecastEpisode),
    /// A page of the playlist of the show with the id; the episodes of the
    /// pages before it have been collected.
    Playlist(String, SimplecastPodcast, Vec<SimplecastPlaylistEpisode>),
    /// The documents of the episodes of the playlist.
    Episodes(SimplecastPodcast),
    /// That the record of the podcast was written; with the podcast come the
    /// episodes that were skipped.
    Saving(Podcast, usize),
    /// Nothing more: the traversal has ended.
    Finished,
}

/// The document of an episode that is to be fetched.
#[derive(Debug)]
pub struct EpisodeRequest {
    /// The id of the episode.
    pub id: String,
    /// The address of its document, or why there is none.
    pub url: Result<Url, ScrapeSimplecastError>,
}

/// What the traversal asks of its driver.
#[derive(Debug)]
pub enum Action {
    /// Ask for the content type of the URL.
    Head(Url),
    /// Fetch the URL through the cache under the extension, and read the
    /// document as a feed.
    Feed(Url, String),
    /// Fetch the page behind the URL.
    Page(Url),
    /// Fetch the document of an episode.
    Episode(Url),
    /// Fetch the document of a show.
    Show(Url),
    /// Fetch a page of a playlist.
    Playlist(Url),
    /// Fetch the documents of these episodes, as a batch in which no failure
    /// stops the others.
    Episodes(Vec<EpisodeRequest>),
    /// Write the record of the podcast to the path.
    Save(String, Podcast),
    /// The podcast was found and saved; so many episodes were skipped.
    Done(Podcast, usize),
    /// The traversal failed.
    Failed(ScrapeError),
}

/// What the driver found.
#[derive(Debug)]
pub enum Event {
    ContentType(Result<String, HttpError>),
    Feed(Result<Channel, ScrapeRssError>),
    Page(Result<String, HttpError>),
    Episode(Result<SimplecastEpisode, HttpError>),
    Show(Result<SimplecastPodcast, HttpError>),
    Playlist(Result<SimplecastPlaylist, HttpError>),
    Episodes(Vec<Result<SimplecastEpisode, ScrapeSimplecastError>>),
    Saved(Result<(), DatabaseError>),
}

/// A traversal from a seed URL to the saved podcast.
#[derive(Debug)]
pub struct Traversal {
    command: ScrapeCommand,
    podcast_id: String,
    seed: Url,
    created_at: Timestamp,
    state: State,
}

/// The requests for the documents of the episodes of a playlist, in order.
pub open spec fn requests_for(
    playlist: Seq<SimplecastPlaylistEpisode>,
    requests: Seq<EpisodeRequest>,
) -> bool {
    &&& requests.len() == playlist.len()
    &&& forall|i: int|
        0 <= i < requests.len() ==> (#[trigger] requests[i]).id@ == playlist[i].id@ && url_result(
            requests[i].url,
        ) == address_url(episode_address(playlist[i].id@))
}

/// The traversal has failed with the error.
pub open spec fn fails(after: Traversal, action: Action, error: ScrapeErrorView) -> bool {
    after.state() is Finished && action is Failed && action->Failed_0@ == error
}

/// The traversal has failed on the player path with the error.
pub open spec fn fails_on_player(
    after: Traversal,
    action: Action,
    error: ScrapeSimplecastErrorView,
) -> bool {
    fails(after, action, ScrapeErrorView::Simplecast(error))
}

/// The podcast is to be saved, and kept until that is done.
pub open spec fn saves(
    before: Traversal,
    after: Traversal,
    action: Action,
    podcast: crate::schema::podcast::PodcastView,
    skipped: nat,
) -> bool {
    &&& after.state() matches State::Saving(kept, count)
    &&& kept@ == podcast
    &&& count == skipped
    &&& action matches Action::Save(path, copy)
    &&& path@ == record_path(before.podcasts(), podcast.id)
    &&& copy@ == podcast
}

impl Traversal {
    /// Where the traversal stands.
    pub closed spec fn state(self) -> State {
        self.state
    }

    /// The id under which the podcast is kept.
    pub closed spec fn podcast_id(self) -> Seq<char> {
        self.podcast_id@
    }

    /// The seed URL.
    pub closed spec fn seed(self) -> UrlView {
        self.seed@
    }

    /// The time that a podcast from a feed gets as the time of its creation.
    pub closed spec fn created_at(self) -> Timestamp {
        self.created_at
    }

    /// The directory of the records.
    pub closed spec fn podcasts(self) -> Seq<char> {
        self.command.podcasts()
    }

    /// The directory of the cache.
    pub closed spec fn http(self) -> Seq<char> {
        self.command.http()
    }

    /// Whether two traversals differ in their state at most.
    pub open spec fn same_journey(self, other: Traversal) -> bool {
        &&& self.podcast_id() == other.podcast_id()
        &&& self.seed() == other.seed()
        &&& self.created_at() == other.created_at()
        &&& self.podcasts() == other.podcasts()
        &&& self.http() == other.http()
    }

    /// What follows an event. The content type of the seed selects the path:
    /// a feed becomes the podcast at once; a page leads through its player to
    /// the episode, the show, the pages of the playlist, one after the other
    /// until one names no next, and the documents of all its episodes, of
    /// which those that failed are left out. The podcast is then saved. An
    /// answer that fails ends the traversal, unless it is one of the batch; so
    /// does an event that was not asked for.
    pub open spec fn follows(before: Traversal, event: Event, after: Traversal, action: Action) -> bool {
        match (before.state(), event) {
            (State::ContentType, Event::ContentType(Err(e))) => fails(
                after,
                action,
                ScrapeErrorView::Head(e@),
            ),
            (State::ContentType, Event::ContentType(Ok(content_type))) => match source_of(
                content_type@,
            ) {
                Source::Feed => {
                    &&& after.state() is Feed
                    &&& action matches Action::Feed(url, extension)
                    &&& url@ == before.seed()
                    &&& extension@ == XML_EXTENSION@
                },
                Source::Player => {
                    &&& after.state() is Page
                    &&& action matches Action::Page(url)
                    &&& url@ == before.seed()
                },
            },
            (State::Feed, Event::Feed(feed)) => match ScrapeCommand::rss_result(
                before.podcast_id(),
                match feed {
                    Ok(channel) => Ok(channel@),
                    Err(e) => Err(e@),
                },
                before.created_at(),
            ) {
                Ok(podcast) => saves(before, after, action, podcast, 0),
                Err(e) => fails(after, action, ScrapeErrorView::Rss(e)),
            },
            (State::Page, Event::Page(Err(e))) => fails_on_player(
                after,
                action,
                ScrapeSimplecastErrorView::GetPage(e@),
            ),
            (State::Page, Event::Page(Ok(html))) => match episode_guid(html@) {
                None => fails_on_player(
                    after,
                    action,
                    ScrapeSimplecastErrorView::PlayerNotFound(before.seed()),
                ),
                Some(guid) => match address_url(episode_address(guid)) {
                    Err(e) => fails_on_player(after, action, e),
                    Ok(address) => {
                        &&& after.state() matches State::Episode(id)
                        &&& id@ == guid
                        &&& action matches Action::Episode(url)
                        &&& url@ == address
                    },
                },
            },
            (State::Episode(id), Event::Episode(Err(e))) => fails_on_player(
                after,
                action,
                ScrapeSimplecastErrorView::GetEpisode(id@, e@),
            ),
            (State::Episode(_), Event::Episode(Ok(episode))) => match address_url(
                podcast_address(episode.podcast.id@),
            ) {
                Err(e) => fails_on_player(after, action, e),
                Ok(address) => {
                    &&& after.state() matches State::Show(kept)
                    &&& kept == episode
                    &&& action matches Action::Show(url)
                    &&& url@ == address
                },
            },
            (State::Show(episode), Event::Show(Err(e))) => fails_on_player(
                after,
                action,
                ScrapeSimplecastErrorView::GetPlaylist(episode.podcast.id@, e@),
            ),
            (State::Show(episode), Event::Show(Ok(show))) => match address_url(
                playlist_address(episode.podcast.id@),
            ) {
                Err(e) => fails_on_player(after, action, e),
                Ok(address) => {
                    &&& after.state() matches State::Playlist(id, kept, collected)
                    &&& id@ == episode.podcast.id@
                    &&& kept == show
                    &&& collected@.len() == 0
                    &&& action matches Action::Playlist(url)
                    &&& url@ == address
                },
            },
            (State::Playlist(id, _, _), Event::Playlist(Err(e))) => fails_on_player(
                after,
                action,
                ScrapeSimplecastErrorView::GetPlaylist(id@, e@),
            ),
            (State::Playlist(id, show, collected), Event::Playlist(Ok(page))) => match page.episodes.pages.next {
                Some(link) => {
                    &&& after.state() matches State::Playlist(same_id, kept, more)
                    &&& same_id == id
                    &&& kept == show
                    &&& more@ == collected@ + page.episodes.collection@
                    &&& action matches Action::Playlist(url)
                    &&& url == link.href
                },
                None => {
                    &&& after.state() matches State::Episodes(kept)
                    &&& kept == show
                    &&& action matches Action::Episodes(requests)
                    &&& requests_for(collected@ + page.episodes.collection@, requests@)
                },
            },
            (State::Episodes(show), Event::Episodes(results)) => saves(
                before,
                after,
                action,
                show.podcast(before.podcast_id(), converted(successes(results@))),
                failures(results@).len(),
            ),
            (State::Saving(podcast, skipped), Event::Saved(Ok(()))) => {
                &&& after.state() is Finished
                &&& action matches Action::Done(found, count)
                &&& found == podcast
                &&& count == skipped
            },
            (State::Saving(_, _), Event::Saved(Err(e))) => fails(
                after,
                action,
                ScrapeErrorView::Save(e@),
            ),
            _ => fails(after, action, ScrapeErrorView::OutOfTurn),
        }
    }

    /// Begins a traversal: the content type of the seed URL is asked for.
    pub fn new(command: ScrapeCommand, podcast_id: String, seed: Url, created_at: Timestamp) -> (begun:
        (Traversal, Action))
        ensures
            begun.0.state() is ContentType,
            begun.0.podcast_id() == podcast_id@,
            begun.0.seed() == seed@,
            begun.0.created_at() == created_at,
            begun.0.podcasts() == command.podcasts(),
            begun.0.http() == command.http(),
            begun.1 matches Action::Head(url) && url@ == seed@,
    {
        let first = Action::Head(seed.duplicate());
        (Traversal { command, podcast_id, seed, created_at, state: State::ContentType }, first)
    }

    /// The command that the traversal decides with.
    pub fn get_command(&self) -> (command: &ScrapeCommand)
        ensures
            command.podcasts() == self.podcasts(),
            command.http() == self.http(),
    {
        &self.command
    }

    fn with(self, state: State) -> (next: Traversal)
        ensures
            next.state() == state,
            self.same_journey(next),
    {
        Traversal {
            command: self.command,
            podcast_id: self.podcast_id,
            seed: self.seed,
            created_at: self.created_at,
            state,
        }
    }

    fn fail(self, error: ScrapeError) -> (next: (Traversal, Action))
        ensures
            fails(next.0, next.1, error@),
            self.same_journey(next.0),
    {
        (self.with(State::Finished), Action::Failed(error))
    }

    fn save(self, podcast: Podcast, skipped: usize) -> (next: (Traversal, Action))
        ensures
            saves(self, next.0, next.1, podcast@, skipped as nat),
            self.same_journey(next.0),
    {
        let path = self.command.save(&podcast);
        let copy = podcast.duplicate();
        (self.with(State::Saving(podcast, skipped)), Action::Save(path, copy))
    }

    fn request_all(&self, playlist: &Vec<SimplecastPlaylistEpisode>) -> (requests: Vec<
        EpisodeRequest,
    >)
        ensures
            requests_for(playlist@, requests@),
    {
        let mut requests: Vec<EpisodeRequest> = Vec::new();
        let mut i: usize = 0;
        while i < playlist.len()
            invariant
                i <= playlist.len(),
                requests_for(playlist@.take(i as int), requests@),
            decreases playlist.len() - i,
        {
            let id = playlist[i].id.clone();
            let url = self.command.get_episode(id.as_str());
            requests.push(EpisodeRequest { id, url });
            i += 1;
        }
        requests
    }

    /// Takes up what the driver found, and decides what is asked next.
    pub fn advance(self, event: Event) -> (next: (Traversal, Action))
        ensures
            self.same_journey(next.0),
            Self::follows(self, event, next.0, next.1),
    {
        let Traversal { command, podcast_id, seed, created_at, state } = self;
        match (state, event) {
            (State::ContentType, Event::ContentType(content_type)) => {
                let this = Traversal {
                    command,
                    podcast_id,
                    seed,
                    created_at,
                    state: State::Finished,
                };
                match this.command.execute(content_type) {
                    Err(e) => this.fail(e),
                    Ok(Source::Feed) => {
                        let action = Action::Feed(this.seed.duplicate(), XML_EXTENSION.to_owned());
                        (this.with(State::Feed), action)
                    },
                    Ok(Source::Player) => {
                        let action = Action::Page(this.seed.duplicate());
                        (this.with(State::Page), action)
                    },
                }
            },
            (State::Feed, Event::Feed(feed)) => {
                let this = Traversal {
                    command,
                    podcast_id,
                    seed,
                    created_at,
                    state: State::Finished,
                };
                match this.command.execute_rss(this.podcast_id.as_str(), feed, this.created_at) {
                    Ok(podcast) => this.save(podcast, 0),
                    Err(e) => this.fail(ScrapeError::Rss(e)),
                }
            },
            (State::Page, Event::Page(page)) => {
                let this = Traversal {
                    command,
                    podcast_id,
                    seed,
                    created_at,
                    state: State::Finished,
                };
                match this.command.get_player_id(&this.seed, page) {
                    Err(e) => this.fail(ScrapeError::Simplecast(e)),
                    Ok(id) => match this.command.get_episode(id.as_str()) {
                        Err(e) => this.fail(ScrapeError::Simplecast(e)),
                        Ok(url) => (this.with(State::Episode(id)), Action::Episode(url)),
                    },
                }
            },
            (State::Episode(id), Event::Episode(found)) => {
                let this = Traversal {
                    command,
                    podcast_id,
                    seed,
                    created_at,
                    state: State::Finished,
                };
                match found {
                    Err(e) => this.fail(
                        ScrapeError::Simplecast(ScrapeSimplecastError::GetEpisode(id, e)),
                    ),
                    Ok(episode) => match this.command.get_podcast(&episode) {
                        Err(e) => this.fail(ScrapeError::Simplecast(e)),
                        Ok(url) => (this.with(State::Show(episode)), Action::Show(url)),
                    },
                }
            },
            (State::Show(episode), Event::Show(found)) => {
                let this = Traversal {
                    command,
                    podcast_id,
                    seed,
                    created_at,
                    state: State::Finished,
                };
                match found {
                    Err(e) => this.fail(
                        ScrapeError::Simplecast(
                            ScrapeSimplecastError::GetPlaylist(episode.podcast.id.clone(), e),
                        ),
                    ),
                    Ok(show) => match this.command.get_playlist_url(&episode) {
                        Err(e) => this.fail(ScrapeError::Simplecast(e)),
                        Ok(url) => (
                            this.with(
                                State::Playlist(episode.podcast.id.clone(), show, Vec::new()),
                            ),
                            Action::Playlist(url),
                        ),
                    },
                }
            },
            (State::Playlist(id, show, collected), Event::Playlist(found)) => {
                let this = Traversal {
                    command,
                    podcast_id,
                    seed,
                    created_at,
                    state: State::Finished,
                };
                match found {
                    Err(e) => this.fail(
                        ScrapeError::Simplecast(ScrapeSimplecastError::GetPlaylist(id, e)),
                    ),
                    Ok(page) => {
                        let mut collected = collected;
                        match this.command.get_playlist(&mut collected, page) {
                            Some(url) => (
                                this.with(State::Playlist(id, show, collected)),
                                Action::Playlist(url),
                            ),
                            None => {
                                let requests = this.request_all(&collected);
                                (this.with(State::Episodes(show)), Action::Episodes(requests))
                            },
                        }
                    },
                }
            },
            (State::Episodes(show), Event::Episodes(results)) => {
                let this = Traversal {
                    command,
                    podcast_id,
                    seed,
                    created_at,
                    state: State::Finished,
                };
                let found = this.command.execute_simplecast(
                    this.podcast_id.as_str(),
                    show,
                    results,
                );
                this.save(found.podcast, found.skipped)
            },
            (State::Saving(podcast, skipped), Event::Saved(saved)) => {
                let this = Traversal {
                    command,
                    podcast_id,
                    seed,
                    created_at,
                    state: State::Finished,
                };
                match saved {
                    Ok(()) => (this, Action::Done(podcast, skipped)),
                    Err(e) => this.fail(ScrapeError::Save(e)),
                }
            },
            _ => {
                let this = Traversal {
                    command,
                    podcast_id,
                    seed,
                    created_at,
                    state: State::Finished,
                };
                this.fail(ScrapeError::OutOfTurn)
            },
        }
    }
}

/// The episodes of the pages of a playlist, in order.
pub open spec fn collected(pages: Seq<SimplecastPlaylist>) -> Seq<SimplecastPlaylistEpisode>
    decreases pages.len(),
{
    if pages.len() == 0 {
        Seq::empty()
    } else {
        collected(pages.drop_last()) + pages.last().episodes.collection@
    }
}

/// Whether a traversal that waits for the first page of a playlist is
/// handed the pages one after the other: `states` are the states before and
/// after each page, `actions` what was asked after each.
pub open spec fn paging(
    states: Seq<Traversal>,
    actions: Seq<Action>,
    pages: Seq<SimplecastPlaylist>,
) -> bool {
    &&& pages.len() > 0
    &&& states.len() == pages.len() + 1
    &&& actions.len() == pages.len()
    &&& states[0].state() matches State::Playlist(_, _, none) && none@.len() == 0
    &&& forall|i: int|
        0 <= i < pages.len() ==> Traversal::follows(
            #[trigger] states[i],
            Event::Playlist(Ok(pages[i])),
            states[i + 1],
            actions[i],
        )
    &&& forall|i: int| 0 <= i < pages.len() - 1 ==> (#[trigger] pages[i]).episodes.pages.next is Some
    &&& pages.last().episodes.pages.next is None
}

/// While pages name a next page, the traversal collects their episodes in
/// order and asks for that page.
proof fn lemma_collecting(
    states: Seq<Traversal>,
    actions: Seq<Action>,
    pages: Seq<SimplecastPlaylist>,
    k: int,
)
    requires
        paging(states, actions, pages),
        0 <= k < pages.len(),
    ensures
        states[k].state() matches State::Playlist(_, _, so_far) && so_far@ == collected(
            pages.take(k),
        ),
        forall|i: int| 0 <= i < k ==> (#[trigger] actions[i]) is Playlist,
    decreases k,
{
    if k > 0 {
        lemma_collecting(states, actions, pages, k - 1);
        assert(pages.take(k).drop_last() == pages.take(k - 1));
    }
}

/// Pagination ends: a playlist of any number of pages, of which only the last
/// names no next page, is followed page by page; after the last page nothing
/// more of the playlist is asked for, and the documents of exactly the
/// episodes of all the pages, in their order, are.
pub proof fn lemma_pagination_ends(
    states: Seq<Traversal>,
    actions: Seq<Action>,
    pages: Seq<SimplecastPlaylist>,
)
    requires
        paging(states, actions, pages),
    ensures
        forall|i: int| 0 <= i < pages.len() - 1 ==> (#[trigger] actions[i]) is Playlist,
        actions.last() matches Action::Episodes(requests) && requests_for(
            collected(pages),
            requests@,
        ),
{
    let last = pages.len() - 1;
    lemma_collecting(states, actions, pages, last);
}

} // verus!
