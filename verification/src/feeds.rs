//! The feeds command: the episodes of a podcast by season and by year, and
//! the feed files that are written for them.

use crate::schema::episode::{episode_views, lemma_episode_views_push, Episode, EpisodeView};
use crate::schema::podcast::Podcast;
use crate::services::options::AppOptionsView;
use crate::services::paths::{opt_location, AudioLocation, PathProvider};
use crate::services::podcasts::{
    database_error_message, DatabaseError, DatabaseErrorView, PodcastProvider,
};
use crate::text::{chars_of, push_str, string_from_chars};
use vstd::prelude::*;

verus! {

/// The options of the feeds command.
#[derive(Debug)]
pub struct FeedsOptions {
    /// The id of the podcast whose feeds are written.
    pub podcast_id: String,
}

/// The command that writes the feeds of a podcast.
#[derive(Debug)]
pub struct FeedsCommand {
    podcasts: PodcastProvider,
    paths: PathProvider,
}

/// Why the feeds were not written.
#[derive(Debug)]
pub enum FeedsError {
    /// The record of the podcast could not be read.
    GetPodcast(DatabaseError),
    /// The feed could not be written to the path.
    Xml(String, String),
}

/// What a `FeedsError` holds, as mathematical values.
pub enum FeedsErrorView {
    GetPodcast(DatabaseErrorView),
    Xml(Seq<char>, Seq<char>),
}

impl View for FeedsError {
    type V = FeedsErrorView;

    open spec fn view(&self) -> FeedsErrorView {
        match self {
            FeedsError::GetPodcast(e) => FeedsErrorView::GetPodcast(e@),
            FeedsError::Xml(path, cause) => FeedsErrorView::Xml(path@, cause@),
        }
    }
}

/// The episodes of one season; those without a season are a group of their own.
#[derive(Debug)]
pub struct SeasonGroup {
    pub season: Option<usize>,
    pub episodes: Vec<Episode>,
}

/// The episodes that were published in one year.
#[derive(Debug)]
pub struct YearGroup {
    pub year: i32,
    pub episodes: Vec<Episode>,
}

/// A feed file that is to be written.
#[derive(Debug)]
pub struct FeedFile {
    /// The season of the feed; `None` for the whole podcast and for the
    /// episodes without a season.
    pub season: Option<usize>,
    /// The year of the feed, if it is that of one year.
    pub year: Option<i32>,
    /// The place of the file.
    pub path: String,
    /// The episodes of the feed.
    pub episodes: Vec<Episode>,
}

/// What a `FeedFile` holds, as mathematical values.
pub struct FeedFileView {
    pub season: Option<usize>,
    pub year: Option<i32>,
    pub path: Seq<char>,
    pub episodes: Seq<EpisodeView>,
}

impl View for FeedFile {
    type V = FeedFileView;

    open spec fn view(&self) -> FeedFileView {
        FeedFileView {
            season: self.season,
            year: self.year,
            path: self.path@,
            episodes: episode_views(self.episodes@),
        }
    }
}

/// The views of a sequence of feed files.
pub open spec fn feed_views(feeds: Seq<FeedFile>) -> Seq<FeedFileView> {
    feeds.map_values(|f: FeedFile| f@)
}

/// The keys without repeats, each where it is seen first.
pub open spec fn first_seen(keys: Seq<int>) -> Seq<int>
    decreases keys.len(),
{
    if keys.len() == 0 {
        Seq::empty()
    } else {
        let before = first_seen(keys.drop_last());
        if before.contains(keys.last()) {
            before
        } else {
            before.push(keys.last())
        }
    }
}

/// The items whose key is `key`, in order.
pub open spec fn selected<T>(items: Seq<T>, keys: Seq<int>, key: int) -> Seq<T>
    recommends
        items.len() == keys.len(),
    decreases items.len(),
{
    if items.len() == 0 || keys.len() == 0 {
        Seq::empty()
    } else {
        let before = selected(items.drop_last(), keys.drop_last(), key);
        if keys.last() == key {
            before.push(items.last())
        } else {
            before
        }
    }
}

/// The number that stands for a season: the season's own, and -1 for none.
pub open spec fn season_key(season: Option<usize>) -> int {
    match season {
        Some(s) => s as int,
        None => -1,
    }
}

/// The season keys of the episodes.
pub open spec fn season_keys(episodes: Seq<EpisodeView>) -> Seq<int> {
    episodes.map_values(|e: EpisodeView| season_key(e.season))
}

/// The years of publication of the episodes.
pub open spec fn year_keys(episodes: Seq<EpisodeView>) -> Seq<int> {
    episodes.map_values(|e: EpisodeView| e.published_at.spec_year() as int)
}

/// The episodes of a season, in order.
pub open spec fn of_season(episodes: Seq<EpisodeView>, season: Option<usize>) -> Seq<EpisodeView> {
    selected(episodes, season_keys(episodes), season_key(season))
}

/// The episodes of a year, in order.
pub open spec fn of_year(episodes: Seq<EpisodeView>, year: int) -> Seq<EpisodeView> {
    selected(episodes, year_keys(episodes), year)
}

/// Each key is seen first once, and only keys are.
pub proof fn lemma_first_seen(keys: Seq<int>)
    ensures
        first_seen(keys).no_duplicates(),
        forall|i: int| 0 <= i < keys.len() ==> first_seen(keys).contains(#[trigger] keys[i]),
        forall|j: int|
            0 <= j < first_seen(keys).len() ==> keys.contains(#[trigger] first_seen(keys)[j]),
    decreases keys.len(),
{
    if keys.len() > 0 {
        let rest = keys.drop_last();
        let before = first_seen(rest);
        lemma_first_seen(rest);
        assert forall|i: int| 0 <= i < keys.len() implies first_seen(keys).contains(
            #[trigger] keys[i],
        ) by {
            if i < rest.len() {
                let j = choose|j: int| 0 <= j < before.len() && before[j] == rest[i];
                assert(first_seen(keys)[j] == keys[i]);
            } else if !before.contains(keys.last()) {
                assert(first_seen(keys)[before.len() as int] == keys[i]);
            }
        }
        assert forall|j: int| 0 <= j < first_seen(keys).len() implies keys.contains(
            #[trigger] first_seen(keys)[j],
        ) by {
            if j < before.len() {
                assert(rest.contains(before[j]));
            }
        }
    }
}

/// The keys without repeats, each where it is seen first.
fn distinct(keys: &Vec<i128>) -> (out: Vec<i128>)
    ensures
        out@.map_values(|k: i128| k as int) == first_seen(keys@.map_values(|k: i128| k as int)),
{
    let ghost all = keys@.map_values(|k: i128| k as int);
    let mut out: Vec<i128> = Vec::new();
    let mut i: usize = 0;
    while i < keys.len()
        invariant
            i <= keys.len(),
            all == keys@.map_values(|k: i128| k as int),
            out@.map_values(|k: i128| k as int) == first_seen(all.take(i as int)),
        decreases keys.len() - i,
    {
        let key = keys[i];
        let ghost seen = out@.map_values(|k: i128| k as int);
        proof {
            assert(all.take(i + 1).drop_last() == all.take(i as int));
        }
        let mut found = false;
        let mut j: usize = 0;
        while j < out.len()
            invariant
                j <= out.len(),
                seen == out@.map_values(|k: i128| k as int),
                found <==> exists|m: int| 0 <= m < j && seen[m] == key as int,
            decreases out.len() - j,
        {
            if out[j] == key {
                assert(seen[j as int] == key as int);
                found = true;
            }
            j += 1;
        }
        if !found {
            out.push(key);
        } else {
            proof {
                let m = choose|m: int| 0 <= m < seen.len() && seen[m] == key as int;
            }
        }
        i += 1;
    }
    assert(all.take(all.len() as int) == all);
    out
}

/// The episodes whose key is `key`, in order.
fn select(episodes: &Vec<Episode>, keys: &Vec<i128>, key: i128) -> (out: Vec<Episode>)
    requires
        keys.len() == episodes.len(),
    ensures
        episode_views(out@) == selected(
            episode_views(episodes@),
            keys@.map_values(|k: i128| k as int),
            key as int,
        ),
{
    let ghost items = episode_views(episodes@);
    let ghost all = keys@.map_values(|k: i128| k as int);
    let mut out: Vec<Episode> = Vec::new();
    let mut i: usize = 0;
    while i < episodes.len()
        invariant
            i <= episodes.len(),
            keys.len() == episodes.len(),
            items == episode_views(episodes@),
            all == keys@.map_values(|k: i128| k as int),
            episode_views(out@) == selected(items.take(i as int), all.take(i as int), key as int),
        decreases episodes.len() - i,
    {
        proof {
            assert(items.take(i + 1).drop_last() == items.take(i as int));
            assert(all.take(i + 1).drop_last() == all.take(i as int));
        }
        if keys[i] == key {
            let episode = episodes[i].duplicate();
            proof {
                lemma_episode_views_push(out@, episode);
            }
            out.push(episode);
        }
        i += 1;
    }
    assert(items.take(items.len() as int) == items);
    assert(all.take(all.len() as int) == all);
    out
}

/// The season keys of the episodes.
fn keys_by_season(episodes: &Vec<Episode>) -> (keys: Vec<i128>)
    ensures
        keys.len() == episodes.len(),
        keys@.map_values(|k: i128| k as int) == season_keys(episode_views(episodes@)),
{
    let mut keys: Vec<i128> = Vec::new();
    let mut i: usize = 0;
    while i < episodes.len()
        invariant
            i <= episodes.len(),
            keys.len() == i,
            forall|j: int| 0 <= j < i ==> keys@[j] as int == season_key(#[trigger] episodes@[j].season),
        decreases episodes.len() - i,
    {
        let key: i128 = match episodes[i].season {
            Some(s) => s as i128,
            None => -1,
        };
        keys.push(key);
        i += 1;
    }
    keys
}

/// The years of publication of the episodes.
fn keys_by_year(episodes: &Vec<Episode>) -> (keys: Vec<i128>)
    ensures
        keys.len() == episodes.len(),
        keys@.map_values(|k: i128| k as int) == year_keys(episode_views(episodes@)),
{
    let mut keys: Vec<i128> = Vec::new();
    let mut i: usize = 0;
    while i < episodes.len()
        invariant
            i <= episodes.len(),
            keys.len() == i,
            forall|j: int|
                0 <= j < i ==> keys@[j] as int == (#[trigger] episodes@[j]).published_at.spec_year(),
        decreases episodes.len() - i,
    {
        let key: i128 = episodes[i].published_at.year() as i128;
        keys.push(key);
        i += 1;
    }
    keys
}

/// The episodes by season: one group for each season, in the order in which
/// the seasons are first seen, each with its episodes in their order. The
/// episodes without a season are a group of their own.
pub fn group_by_season(episodes: Vec<Episode>) -> (groups: Vec<SeasonGroup>)
    ensures
        groups.len() == first_seen(season_keys(episode_views(episodes@))).len(),
        forall|g: int|
            0 <= g < groups.len() ==> season_key((#[trigger] groups[g]).season) == first_seen(
                season_keys(episode_views(episodes@)),
            )[g] && episode_views(groups[g].episodes@) == of_season(
                episode_views(episodes@),
                groups[g].season,
            ),
{
    let keys = keys_by_season(&episodes);
    let order = distinct(&keys);
    let ghost all = season_keys(episode_views(episodes@));
    let ghost firsts = first_seen(all);
    proof {
        lemma_first_seen(all);
    }
    let mut groups: Vec<SeasonGroup> = Vec::new();
    let mut g: usize = 0;
    while g < order.len()
        invariant
            g <= order.len(),
            keys.len() == episodes.len(),
            all == season_keys(episode_views(episodes@)),
            all == keys@.map_values(|k: i128| k as int),
            firsts == first_seen(all),
            firsts == order@.map_values(|k: i128| k as int),
            forall|j: int| 0 <= j < firsts.len() ==> all.contains(#[trigger] firsts[j]),
            groups.len() == g,
            forall|h: int|
                0 <= h < g ==> season_key((#[trigger] groups[h]).season) == firsts[h]
                    && episode_views(groups[h].episodes@) == of_season(
                    episode_views(episodes@),
                    groups[h].season,
                ),
        decreases order.len() - g,
    {
        let key = order[g];
        assert(all.contains(firsts[g as int]));
        let season: Option<usize> = if key < 0 {
            None
        } else {
            Some(key as usize)
        };
        let members = select(&episodes, &keys, key);
        groups.push(SeasonGroup { season, episodes: members });
        g += 1;
    }
    groups
}

/// The episodes by year of publication: one group for each year, in the
/// order in which the years are first seen, each with its episodes in their
/// order.
pub fn group_by_year(episodes: Vec<Episode>) -> (groups: Vec<YearGroup>)
    ensures
        groups.len() == first_seen(year_keys(episode_views(episodes@))).len(),
        forall|g: int|
            0 <= g < groups.len() ==> (#[trigger] groups[g]).year == first_seen(
                year_keys(episode_views(episodes@)),
            )[g] && episode_views(groups[g].episodes@) == of_year(
                episode_views(episodes@),
                groups[g].year as int,
            ),
{
    let keys = keys_by_year(&episodes);
    let order = distinct(&keys);
    let ghost all = year_keys(episode_views(episodes@));
    let ghost firsts = first_seen(all);
    proof {
        lemma_first_seen(all);
    }
    let mut groups: Vec<YearGroup> = Vec::new();
    let mut g: usize = 0;
    while g < order.len()
        invariant
            g <= order.len(),
            keys.len() == episodes.len(),
            all == year_keys(episode_views(episodes@)),
            all == keys@.map_values(|k: i128| k as int),
            firsts == first_seen(all),
            firsts == order@.map_values(|k: i128| k as int),
            forall|j: int| 0 <= j < firsts.len() ==> all.contains(#[trigger] firsts[j]),
            groups.len() == g,
            forall|h: int|
                0 <= h < g ==> (#[trigger] groups[h]).year == firsts[h] && episode_views(
                    groups[h].episodes@,
                ) == of_year(episode_views(episodes@), groups[h].year as int),
        decreases order.len() - g,
    {
        let key = order[g];
        assert(all.contains(firsts[g as int]));
        let year: i32 = key as i32;
        let members = select(&episodes, &keys, key);
        groups.push(YearGroup { year, episodes: members });
        g += 1;
    }
    groups
}

/// The season that a key stands for.
pub open spec fn season_of_key(key: int) -> Option<usize> {
    if key < 0 {
        None
    } else {
        Some(key as usize)
    }
}

/// The feeds of the years of a season's episodes, in the order in which the
/// years are first seen.
pub open spec fn year_feeds(
    options: AppOptionsView,
    podcast_id: Seq<char>,
    season: Option<usize>,
    episodes: Seq<EpisodeView>,
) -> Seq<FeedFileView> {
    let years = first_seen(year_keys(episodes));
    Seq::new(
        years.len(),
        |y: int|
            FeedFileView {
                season,
                year: Some(years[y] as i32),
                path: PathProvider::output_path_for_rss(
                    options,
                    podcast_id,
                    season,
                    Some(years[y] as i32),
                ),
                episodes: of_year(episodes, years[y]),
            },
    )
}

/// The feeds of the first `count` seasons: for each season its own feed, and
/// then those of its years.
pub open spec fn season_feeds(
    options: AppOptionsView,
    podcast_id: Seq<char>,
    episodes: Seq<EpisodeView>,
    count: nat,
) -> Seq<FeedFileView>
    decreases count,
{
    if count == 0 {
        Seq::empty()
    } else {
        let season = season_of_key(first_seen(season_keys(episodes))[count - 1]);
        let members = of_season(episodes, season);
        season_feeds(options, podcast_id, episodes, (count - 1) as nat) + seq![
            FeedFileView {
                season,
                year: None,
                path: PathProvider::output_path_for_rss(options, podcast_id, season, None),
                episodes: members,
            },
        ] + year_feeds(options, podcast_id, season, members)
    }
}

/// The feeds of a podcast: that of all its episodes, then those of its seasons.
pub open spec fn feed_plan(
    options: AppOptionsView,
    podcast_id: Seq<char>,
    episodes: Seq<EpisodeView>,
) -> Seq<FeedFileView> {
    seq![
        FeedFileView {
            season: None,
            year: None,
            path: PathProvider::output_path_for_rss(options, podcast_id, None, None),
            episodes,
        },
    ] + season_feeds(
        options,
        podcast_id,
        episodes,
        first_seen(season_keys(episodes)).len(),
    )
}

/// The first episode with the id, if there is one.
pub open spec fn find_episode(episodes: Seq<EpisodeView>, id: Seq<char>) -> Option<EpisodeView>
    decreases episodes.len(),
{
    if episodes.len() == 0 {
        None
    } else if episodes[0].id == id {
        Some(episodes[0])
    } else {
        find_episode(episodes.drop_first(), id)
    }
}

/// The views of a sequence with one more feed are the views of the sequence
/// with one more view.
proof fn lemma_feed_views_push(feeds: Seq<FeedFile>, feed: FeedFile)
    ensures
        feed_views(feeds.push(feed)) == feed_views(feeds).push(feed@),
{
}

impl FeedsCommand {
    /// The feeds of the years of a season's episodes.
    fn save_year_feeds(
        &self,
        feeds: &mut Vec<FeedFile>,
        podcast_id: &str,
        season: Option<usize>,
        episodes: Vec<Episode>,
    )
        requires
            podcast_id@.len() > 0,
        ensures
            feed_views(final(feeds)@) == feed_views(old(feeds)@) + year_feeds(
                self.paths(),
                podcast_id@,
                season,
                episode_views(episodes@),
            ),
    {
        let ghost before = feed_views(feeds@);
        let ghost expected = year_feeds(self.paths(), podcast_id@, season, episode_views(episodes@));
        let groups = group_by_year(episodes);
        let ghost all = groups@;
        for group in it: groups
            invariant
                podcast_id@.len() > 0,
                it.seq() == all,
                all.len() == expected.len(),
                expected == year_feeds(self.paths(), podcast_id@, season, episode_views(episodes@)),
                forall|g: int|
                    0 <= g < all.len() ==> (#[trigger] all[g]).year == first_seen(
                        year_keys(episode_views(episodes@)),
                    )[g] && episode_views(all[g].episodes@) == of_year(
                        episode_views(episodes@),
                        all[g].year as int,
                    ),
                feed_views(feeds@) == before + expected.take(it.index() as int),
        {
            let ghost i = it.index() as int;
            let feed = self.save_feed(podcast_id, group.episodes, season, Some(group.year));
            proof {
                lemma_feed_views_push(feeds@, feed);
            }
            feeds.push(feed);
        }
    }

    /// The feed files of a podcast: one of all its episodes; one for each
    /// season; and below each season one for each year in which an episode
    /// of it was published.
    pub fn save_feeds(&self, podcast: &Podcast) -> (feeds: Vec<FeedFile>)
        requires
            podcast@.id.len() > 0,
        ensures
            feed_views(feeds@) == feed_plan(self.paths(), podcast@.id, podcast@.episodes),
    {
        let id = podcast.id.as_str();
        let ghost episodes = podcast@.episodes;
        let mut feeds: Vec<FeedFile> = Vec::new();
        let whole = self.save_feed(
            id,
            crate::schema::podcast::duplicate_episodes(&podcast.episodes),
            None,
            None,
        );
        proof {
            lemma_feed_views_push(feeds@, whole);
        }
        feeds.push(whole);
        let ghost first = feed_views(feeds@);
        let groups = group_by_season(crate::schema::podcast::duplicate_episodes(&podcast.episodes));
        let ghost all = groups@;
        let ghost firsts = first_seen(season_keys(episodes));
        for group in it: groups
            invariant
                id@ == podcast@.id,
                id@.len() > 0,
                episodes == podcast@.episodes,
                it.seq() == all,
                firsts == first_seen(season_keys(episodes)),
                all.len() == firsts.len(),
                forall|g: int|
                    0 <= g < all.len() ==> season_key((#[trigger] all[g]).season) == firsts[g]
                        && episode_views(all[g].episodes@) == of_season(episodes, all[g].season),
                feed_views(feeds@) == first + season_feeds(
                    self.paths(),
                    id@,
                    episodes,
                    it.index() as nat,
                ),
        {
            let season = group.season;
            let feed = self.save_feed(
                id,
                crate::schema::podcast::duplicate_episodes(&group.episodes),
                season,
                None,
            );
            proof {
                lemma_feed_views_push(feeds@, feed);
            }
            feeds.push(feed);
            self.save_year_feeds(&mut feeds, id, season, group.episodes);
        }
        feeds
    }

    /// Where the audio of a feed's item is to be had: that of the episode
    /// whose id is the item's GUID. `None` where the podcast has no such
    /// episode or its audio has no location.
    pub fn replace_enclosure(&self, podcast: &Podcast, guid: &str, current_dir: Option<&str>) -> (
    location: Option<AudioLocation>)
        ensures
            opt_location(location) == (match find_episode(podcast@.episodes, guid@) {
                Some(episode) => PathProvider::url_for_audio(
                    self.paths(),
                    podcast@.id,
                    episode,
                    match current_dir {
                        Some(dir) => Some(dir@),
                        None => None,
                    },
                ),
                None => None,
            }),
    {
        let ghost all = podcast@.episodes;
        let mut i: usize = 0;
        assert(all.skip(0) == all);
        while i < podcast.episodes.len()
            invariant
                i <= podcast.episodes.len(),
                all == podcast@.episodes,
                all.len() == podcast.episodes.len(),
                find_episode(all, guid@) == find_episode(all.skip(i as int), guid@),
            decreases podcast.episodes.len() - i,
        {
            let episode = &podcast.episodes[i];
            proof {
                assert(all.skip(i as int).drop_first() == all.skip(i + 1));
            }
            if crate::text::str_eq(episode.id.as_str(), guid) {
                return self.paths.get_url_for_audio(podcast.id.as_str(), episode, current_dir);
            }
            i += 1;
        }
        None
    }

    /// The directory of the records.
    pub closed spec fn podcasts(&self) -> Seq<char> {
        self.podcasts@
    }

    /// The options from which the archive's paths are derived.
    pub closed spec fn paths(&self) -> AppOptionsView {
        self.paths@
    }

    /// A command over the services that it is given.
    #[must_use]
    pub fn new(podcasts: PodcastProvider, paths: PathProvider) -> (command: Self)
        ensures
            command.podcasts() == podcasts@,
            command.paths() == paths@,
    {
        Self { podcasts, paths }
    }

    /// The paths of the archive.
    pub fn get_paths(&self) -> (paths: &PathProvider)
        ensures
            paths@ == self.paths(),
    {
        &self.paths
    }

    /// The records.
    pub fn get_podcasts(&self) -> (podcasts: &PodcastProvider)
        ensures
            podcasts@ == self.podcasts(),
    {
        &self.podcasts
    }

    /// One feed file: the episodes given, at the place of the feed of the
    /// season and the year.
    pub fn save_feed(
        &self,
        podcast_id: &str,
        episodes: Vec<Episode>,
        season: Option<usize>,
        year: Option<i32>,
    ) -> (feed: FeedFile)
        requires
            podcast_id@.len() > 0,
        ensures
            feed@ == (FeedFileView {
                season,
                year,
                path: PathProvider::output_path_for_rss(self.paths(), podcast_id@, season, year),
                episodes: episode_views(episodes@),
            }),
    {
        FeedFile {
            season,
            year,
            path: self.paths.get_output_path_for_rss(podcast_id, season, year),
            episodes,
        }
    }
}

/// What the user reads of a `FeedsError`.
pub open spec fn feeds_error_message(error: FeedsErrorView) -> Seq<char> {
    match error {
        FeedsErrorView::GetPodcast(e) =>
            "Failed to create RSS feeds\nUnable to get podcast\n"@ + database_error_message(e),
        FeedsErrorView::Xml(path, cause) =>
            "Failed to create RSS feeds\nUnable to write RSS\nPath: "@ + path + "\n"@ + cause,
    }
}

impl FeedsError {
    /// Writes the error out for the user.
    pub fn message(&self) -> (text: String)
        ensures
            text@ == feeds_error_message(self@),
    {
        match self {
            FeedsError::GetPodcast(e) => {
                let mut out = chars_of("Failed to create RSS feeds\nUnable to get podcast\n");
                push_str(&mut out, e.message().as_str());
                string_from_chars(&out)
            },
            FeedsError::Xml(path, cause) => {
                let mut out = chars_of("Failed to create RSS feeds\nUnable to write RSS\nPath: ");
                push_str(&mut out, path.as_str());
                push_str(&mut out, "\n");
                push_str(&mut out, cause.as_str());
                string_from_chars(&out)
            },
        }
    }
}

} // verus!
