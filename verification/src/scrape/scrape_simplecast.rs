//! The player path of discovery: from a page that embeds the platform's
//! player to the show and its episodes, through the platform's API.

use crate::pipeline::{collect, failures, successes};
use crate::schema::episode::{Episode, EpisodeView};
use crate::schema::podcast::Podcast;
use crate::scrape::scrape::ScrapeCommand;
use crate::scrape::simplecast::podcast::SimplecastPodcast;
use crate::scrape::simplecast_episode::{converted, Episode as SimplecastEpisode};
use crate::scrape::simplecast_playlist::{
    Episode as SimplecastPlaylistEpisode, Playlist as SimplecastPlaylist,
};
use crate::services::http::{http_error_message, HttpError, HttpErrorView};
use crate::text::{chars_of, opt_text, push_str, str_eq, string_from_chars, texts};
use crate::web::{parsed, Url, UrlView};
use vstd::prelude::*;

verus! {

/// The values of the attribute `attr` on the elements of the document `html`
/// that the CSS selector `selector` selects, in document order, with `None`
/// for an element without that attribute; `None` where the selector is not
/// valid.
pub uninterp spec fn selected_attrs(html: Seq<char>, selector: Seq<char>, attr: Seq<char>) -> Option<
    Seq<Option<Seq<char>>>,
>;

/// `scraper::Html::select` on the document of `scraper::Html::parse_document`
/// with the selector of `scraper::Selector::parse`, and of each element that
/// it yields `scraper::ElementRef::attr`. `None` where the selector does not
/// parse.
#[verifier::external_body]
fn select_attrs(html: &str, selector: &str, attr: &str) -> (values: Option<Vec<Option<String>>>)
    ensures
        match values {
            Some(v) => selected_attrs(html@, selector@, attr@) == Some(
                v@.map_values(|value: Option<String>| opt_text(value)),
            ),
            None => selected_attrs(html@, selector@, attr@) is None,
        },
{
    let selector = scraper::Selector::parse(selector).ok()?;
    let document = scraper::Html::parse_document(html);
    Some(document.select(&selector).map(|element| element.attr(attr).map(str::to_owned)).collect())
}

/// The values that are there, in order.
pub open spec fn present(values: Seq<Option<Seq<char>>>) -> Seq<Seq<char>>
    decreases values.len(),
{
    if values.len() == 0 {
        Seq::empty()
    } else {
        let before = present(values.drop_last());
        match values.last() {
            Some(value) => before.push(value),
            None => before,
        }
    }
}

/// The values of an attribute on the selected elements that have it; none
/// where the selector is not valid.
pub open spec fn element_attrs(html: Seq<char>, selector: Seq<char>, attr: Seq<char>) -> Seq<
    Seq<char>,
> {
    match selected_attrs(html, selector, attr) {
        Some(values) => present(values),
        None => Seq::empty(),
    }
}

/// Whether the host is one of the platform's players.
pub open spec fn is_player_host(host: Seq<char>) -> bool {
    host == "player.simplecast.com"@ || host == "embed.simplecast.com"@
}

/// The episode id in the address of an embedded player: the first segment of
/// the path of a URL whose host is one of the platform's players.
pub open spec fn player_guid(address: Seq<char>) -> Option<Seq<char>> {
    if address.len() == 0 {
        None
    } else {
        match parsed(address) {
            Some(url) => match (url.host, url.segments) {
                (Some(host), Some(segments)) => if is_player_host(host) && segments.len() > 0 {
                    Some(segments[0])
                } else {
                    None
                },
                _ => None,
            },
            None => None,
        }
    }
}

/// The episode id of the first address that is one of an embedded player.
pub open spec fn first_player_guid(addresses: Seq<Seq<char>>) -> Option<Seq<char>>
    decreases addresses.len(),
{
    if addresses.len() == 0 {
        None
    } else {
        match player_guid(addresses[0]) {
            Some(guid) => Some(guid),
            None => first_player_guid(addresses.drop_first()),
        }
    }
}

/// The episode id that a page's embedded player names: that of the first
/// frame whose `src`, or else whose `data-src`, is an address of the player.
pub open spec fn episode_guid(html: Seq<char>) -> Option<Seq<char>> {
    first_player_guid(
        element_attrs(html, "iframe"@, "src"@) + element_attrs(html, "iframe"@, "data-src"@),
    )
}

/// The address of an episode's document in the API.
pub open spec fn episode_address(id: Seq<char>) -> Seq<char> {
    "https://api.simplecast.com/episodes/"@ + id
}

/// The address of a show's document in the API.
pub open spec fn podcast_address(id: Seq<char>) -> Seq<char> {
    "https://api.simplecast.com/podcasts/"@ + id
}

/// The address of the first page of a show's playlist in the API.
pub open spec fn playlist_address(id: Seq<char>) -> Seq<char> {
    "https://api.simplecast.com/podcasts/"@ + id + "/playlist"@
}

/// Why the player path of discovery failed.
#[derive(Debug)]
pub enum ScrapeSimplecastError {
    /// The seed page could not be fetched.
    GetPage(HttpError),
    /// The seed page embeds no player of the platform.
    PlayerNotFound(Url),
    /// The document of the episode with the id could not be fetched.
    GetEpisode(String, HttpError),
    /// A document of the show with the id could not be fetched.
    GetPlaylist(String, HttpError),
    /// The text is no address of a document.
    InvalidUrl(String),
}

/// What a `ScrapeSimplecastError` holds, as mathematical values.
pub enum ScrapeSimplecastErrorView {
    GetPage(HttpErrorView),
    PlayerNotFound(UrlView),
    GetEpisode(Seq<char>, HttpErrorView),
    GetPlaylist(Seq<char>, HttpErrorView),
    InvalidUrl(Seq<char>),
}

impl View for ScrapeSimplecastError {
    type V = ScrapeSimplecastErrorView;

    open spec fn view(&self) -> ScrapeSimplecastErrorView {
        match self {
            ScrapeSimplecastError::GetPage(e) => ScrapeSimplecastErrorView::GetPage(e@),
            ScrapeSimplecastError::PlayerNotFound(url) => ScrapeSimplecastErrorView::PlayerNotFound(
                url@,
            ),
            ScrapeSimplecastError::GetEpisode(id, e) => ScrapeSimplecastErrorView::GetEpisode(
                id@,
                e@,
            ),
            ScrapeSimplecastError::GetPlaylist(id, e) => ScrapeSimplecastErrorView::GetPlaylist(
                id@,
                e@,
            ),
            ScrapeSimplecastError::InvalidUrl(text) => ScrapeSimplecastErrorView::InvalidUrl(text@),
        }
    }
}

/// What the player path found.
#[derive(Debug)]
pub struct Discovery {
    /// The show with the episodes that could be fetched.
    pub podcast: Podcast,
    /// The number of episodes of the playlist that could not be fetched.
    pub skipped: usize,
}

/// The address of a document, as a URL.
pub open spec fn address_url(address: Seq<char>) -> Result<UrlView, ScrapeSimplecastErrorView> {
    match parsed(address) {
        Some(url) => Ok(url),
        None => Err(ScrapeSimplecastErrorView::InvalidUrl(address)),
    }
}

/// The view of the result of making an address.
pub open spec fn url_result(result: Result<Url, ScrapeSimplecastError>) -> Result<
    UrlView,
    ScrapeSimplecastErrorView,
> {
    match result {
        Ok(url) => Ok(url@),
        Err(e) => Err(e@),
    }
}

fn to_url(address: String) -> (url: Result<Url, ScrapeSimplecastError>)
    ensures
        url_result(url) == address_url(address@),
{
    match Url::parse(address.as_str()) {
        Some(url) => Ok(url),
        None => Err(ScrapeSimplecastError::InvalidUrl(address)),
    }
}

fn concat(prefix: &str, id: &str, suffix: &str) -> (text: String)
    ensures
        text@ == prefix@ + id@ + suffix@,
{
    let mut out = chars_of(prefix);
    push_str(&mut out, id);
    push_str(&mut out, suffix);
    string_from_chars(&out)
}

impl ScrapeCommand {
    /// Finds the episode that the seed page's player shows. A page that
    /// could not be fetched and a page without a player are told apart.
    pub fn get_player_id(&self, url: &Url, page: Result<String, HttpError>) -> (id: Result<
        String,
        ScrapeSimplecastError,
    >)
        ensures
            match page {
                Err(e) => id is Err && id->Err_0@ == ScrapeSimplecastErrorView::GetPage(e@),
                Ok(html) => match episode_guid(html@) {
                    Some(guid) => id is Ok && id->Ok_0@ == guid,
                    None => id is Err && id->Err_0@ == ScrapeSimplecastErrorView::PlayerNotFound(
                        url@,
                    ),
                },
            },
    {
        match page {
            Err(e) => Err(ScrapeSimplecastError::GetPage(e)),
            Ok(html) => match get_simplecast_episode_guid(html.as_str()) {
                Some(guid) => Ok(guid),
                None => Err(ScrapeSimplecastError::PlayerNotFound(url.duplicate())),
            },
        }
    }

    /// The address of the API's document of the episode with an id.
    pub fn get_episode(&self, id: &str) -> (url: Result<Url, ScrapeSimplecastError>)
        ensures
            url_result(url) == address_url(episode_address(id@)),
    {
        let address = concat("https://api.simplecast.com/episodes/", id, "");
        assert(address@ == episode_address(id@)) by {
            assert(""@ == Seq::<char>::empty()) by {
                reveal_strlit("");
            }
        }
        to_url(address)
    }

    /// The address of the API's document of the show that an episode belongs to.
    pub fn get_podcast(&self, episode: &SimplecastEpisode) -> (url: Result<
        Url,
        ScrapeSimplecastError,
    >)
        ensures
            url_result(url) == address_url(podcast_address(episode.podcast.id@)),
    {
        let address = concat("https://api.simplecast.com/podcasts/", episode.podcast.id.as_str(), "");
        assert(address@ == podcast_address(episode.podcast.id@)) by {
            assert(""@ == Seq::<char>::empty()) by {
                reveal_strlit("");
            }
        }
        to_url(address)
    }

    /// The address of the first page of the playlist of the show that an
    /// episode belongs to.
    pub fn get_playlist_url(&self, episode: &SimplecastEpisode) -> (url: Result<
        Url,
        ScrapeSimplecastError,
    >)
        ensures
            url_result(url) == address_url(playlist_address(episode.podcast.id@)),
    {
        to_url(
            concat("https://api.simplecast.com/podcasts/", episode.podcast.id.as_str(), "/playlist"),
        )
    }

    /// Takes up one page of the playlist: its episodes are added to those
    /// collected so far, in order, and the page that its `next` link names is
    /// the one to fetch then. Without such a link the playlist is complete.
    pub fn get_playlist(
        &self,
        collected: &mut Vec<SimplecastPlaylistEpisode>,
        page: SimplecastPlaylist,
    ) -> (next: Option<Url>)
        ensures
            final(collected)@ == old(collected)@ + page.episodes.collection@,
            match page.episodes.pages.next {
                Some(link) => next == Some(link.href),
                None => next is None,
            },
    {
        let mut page = page;
        collected.append(&mut page.episodes.collection);
        match page.episodes.pages.next {
            Some(link) => Some(link.href),
            None => None,
        }
    }

    /// The episodes that could be fetched, in the order of the results. An
    /// episode whose fetch failed is left out; the others are not touched by it.
    pub fn get_episodes(
        &self,
        results: Vec<Result<SimplecastEpisode, ScrapeSimplecastError>>,
    ) -> (episodes: Vec<SimplecastEpisode>)
        ensures
            episodes@ == successes(results@),
            episodes@.len() + failures(results@).len() == results@.len(),
    {
        collect(results).outputs
    }

    /// Puts together what the player path found: the show with the episodes
    /// that could be fetched, under the caller's id, and the number of
    /// episodes of the playlist that are missing from it.
    pub fn execute_simplecast(
        &self,
        podcast_id: &str,
        podcast: SimplecastPodcast,
        results: Vec<Result<SimplecastEpisode, ScrapeSimplecastError>>,
    ) -> (found: Discovery)
        ensures
            found.podcast@ == podcast.podcast(podcast_id@, converted(successes(results@))),
            found.skipped == failures(results@).len(),
            found.skipped + found.podcast@.episodes.len() == results@.len(),
    {
        let batch = collect(results);
        let skipped = batch.failures.len();
        Discovery { podcast: convert(podcast_id, podcast, batch.outputs), skipped }
    }
}

/// The values that are there, in order.
fn keep_present(values: Vec<Option<String>>) -> (kept: Vec<String>)
    ensures
        texts(kept@) == present(values@.map_values(|value: Option<String>| opt_text(value))),
{
    let ghost all = values@.map_values(|value: Option<String>| opt_text(value));
    let mut kept: Vec<String> = Vec::new();
    for value in it: values
        invariant
            all == it.seq().map_values(|value: Option<String>| opt_text(value)),
            texts(kept@) == present(all.take(it.index() as int)),
    {
        proof {
            let i = it.index() as int;
            assert(all.take(i + 1).drop_last() == all.take(i));
        }
        match value {
            Some(text) => {
                kept.push(text);
            },
            None => {},
        }
    }
    assert(all.take(all.len() as int) == all);
    kept
}

/// The values of an attribute on the elements of a document that a CSS
/// selector selects, in document order. Elements without the attribute are
/// passed over; a selector that is not valid selects nothing.
pub fn get_element_attr(html: &str, selector: &str, attr: &str) -> (values: Vec<String>)
    ensures
        texts(values@) == element_attrs(html@, selector@, attr@),
{
    match select_attrs(html, selector, attr) {
        Some(values) => keep_present(values),
        None => {
            let values: Vec<String> = Vec::new();
            values
        },
    }
}

/// The episode id in the address of an embedded player, if `address` is one.
pub fn get_player_guid(address: &str) -> (guid: Option<String>)
    ensures
        opt_text(guid) == player_guid(address@),
{
    if address.unicode_len() == 0 {
        return None;
    }
    let url = match Url::parse(address) {
        Some(url) => url,
        None => {
            return None;
        },
    };
    let is_player = match &url.host {
        Some(host) => str_eq(host.as_str(), "player.simplecast.com") || str_eq(
            host.as_str(),
            "embed.simplecast.com",
        ),
        None => false,
    };
    if !is_player {
        return None;
    }
    match &url.segments {
        Some(segments) => {
            if segments.len() > 0 {
                Some(segments[0].clone())
            } else {
                None
            }
        },
        None => None,
    }
}

/// The episode id that a page's embedded player names, if the page has one.
pub fn get_simplecast_episode_guid(html: &str) -> (guid: Option<String>)
    ensures
        opt_text(guid) == episode_guid(html@),
{
    let mut src = get_element_attr(html, "iframe", "src");
    let mut data_src = get_element_attr(html, "iframe", "data-src");
    let ghost first = texts(src@);
    let ghost second = texts(data_src@);
    src.append(&mut data_src);
    let ghost all = texts(src@);
    assert(all == first + second);
    let mut i: usize = 0;
    assert(all.skip(0) == all);
    while i < src.len()
        invariant
            i <= src.len(),
            all == texts(src@),
            episode_guid(html@) == first_player_guid(all),
            first_player_guid(all) == first_player_guid(all.skip(i as int)),
        decreases src.len() - i,
    {
        proof {
            assert(all.skip(i as int).drop_first() == all.skip(i + 1));
        }
        match get_player_guid(src[i].as_str()) {
            Some(guid) => {
                return Some(guid);
            },
            None => {},
        }
        i += 1;
    }
    None
}

/// Makes the podcast of a show and its episodes, under the caller's id.
pub fn convert(
    podcast_id: &str,
    podcast: SimplecastPodcast,
    episodes: Vec<SimplecastEpisode>,
) -> (made: Podcast)
    ensures
        made@ == podcast.podcast(podcast_id@, converted(episodes@)),
{
    let mut made = podcast.into_podcast();
    made.id = podcast_id.to_owned();
    let mut list: Vec<Episode> = Vec::new();
    let ghost all = episodes@;
    for episode in it: episodes
        invariant
            it.seq() == all,
            crate::schema::episode::episode_views(list@) == converted(all.take(it.index() as int)),
    {
        let item = episode.into_episode();
        proof {
            crate::schema::episode::lemma_episode_views_push(list@, item);
        }
        list.push(item);
    }
    assert(all.take(all.len() as int) == all);
    made.episodes = list;
    made
}

/// What the user reads of a `ScrapeSimplecastError`.
pub open spec fn simplecast_error_message(error: ScrapeSimplecastErrorView) -> Seq<char> {
    match error {
        ScrapeSimplecastErrorView::GetPage(e) =>
            "Failed to scrape\nUnable to get page\n"@ + http_error_message(e),
        ScrapeSimplecastErrorView::PlayerNotFound(url) =>
            "Failed to scrape\nPage does not contain a Simplecast Player\nURL: "@ + url.text,
        ScrapeSimplecastErrorView::GetEpisode(id, e) =>
            "Failed to scrape\nUnable to get episode: "@ + id + "\n"@ + http_error_message(e),
        ScrapeSimplecastErrorView::GetPlaylist(id, e) =>
            "Failed to scrape\nUnable to get playlist: "@ + id + "\n"@ + http_error_message(e),
        ScrapeSimplecastErrorView::InvalidUrl(text) =>
            "Failed to scrape\nAddress is not a URL: "@ + text,
    }
}

impl ScrapeSimplecastError {
    /// Writes the error out for the user.
    pub fn message(&self) -> (text: String)
        ensures
            text@ == simplecast_error_message(self@),
    {
        match self {
            ScrapeSimplecastError::GetPage(e) => {
                let mut out = chars_of("Failed to scrape\nUnable to get page\n");
                push_str(&mut out, e.message().as_str());
                string_from_chars(&out)
            },
            ScrapeSimplecastError::PlayerNotFound(url) => {
                let mut out = chars_of("Failed to scrape\nPage does not contain a Simplecast Player\nURL: ");
                push_str(&mut out, url.as_str());
                string_from_chars(&out)
            },
            ScrapeSimplecastError::GetEpisode(id, e) => {
                let mut out = chars_of("Failed to scrape\nUnable to get episode: ");
                push_str(&mut out, id.as_str());
                push_str(&mut out, "\n");
                push_str(&mut out, e.message().as_str());
                string_from_chars(&out)
            },
            ScrapeSimplecastError::GetPlaylist(id, e) => {
                let mut out = chars_of("Failed to scrape\nUnable to get playlist: ");
                push_str(&mut out, id.as_str());
                push_str(&mut out, "\n");
                push_str(&mut out, e.message().as_str());
                string_from_chars(&out)
            },
            ScrapeSimplecastError::InvalidUrl(text) => {
                let mut out = chars_of("Failed to scrape\nAddress is not a URL: ");
                push_str(&mut out, text.as_str());
                string_from_chars(&out)
            },
        }
    }
}

} // verus!
