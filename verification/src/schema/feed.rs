//! A feed as plain values: what a podcast is written to, and what a podcast
//! is read from.

use crate::schema::episode::{
    episode_type_of, episode_type_word, episode_views, lemma_episode_views_push, Episode,
    EpisodeType, EpisodeView,
};
use crate::schema::podcast::{podcast_type_of, podcast_type_word, Podcast, PodcastType, PodcastView};
use crate::text::{
    chars_of, decimal_chars, digits, opt_text, parse_decimal, parse_decimal_chars, parsed_u64,
    push_chars, push_str, split, split_chars, str_eq, string_from_chars,
};
use crate::timestamp::Timestamp;
use crate::web::{opt_url, parsed, Url, UrlView};
use vstd::prelude::*;

verus! {

/// The identifier of an item.
#[derive(Debug)]
pub struct Guid {
    pub value: String,
    pub permalink: bool,
}

/// The media file of an item.
#[derive(Debug)]
pub struct Enclosure {
    pub url: String,
    pub length: String,
    pub mime_type: String,
}

/// What the iTunes extension says of an item.
#[derive(Debug)]
pub struct ITunesItemExtension {
    pub duration: Option<String>,
    pub explicit: Option<String>,
    pub image: Option<String>,
    pub episode: Option<String>,
    pub season: Option<String>,
    pub episode_type: Option<String>,
    pub summary: Option<String>,
}

/// An item of a feed.
#[derive(Debug)]
pub struct Item {
    pub title: Option<String>,
    pub link: Option<String>,
    pub guid: Option<Guid>,
    pub description: Option<String>,
    pub pub_date: Option<String>,
    pub enclosure: Option<Enclosure>,
    pub itunes_ext: Option<ITunesItemExtension>,
}

/// What the iTunes extension says of a channel.
#[derive(Debug)]
pub struct ITunesChannelExtension {
    pub author: Option<String>,
    pub image: Option<String>,
    pub explicit: Option<String>,
    pub summary: Option<String>,
    pub podcast_type: Option<String>,
}

/// A feed.
#[derive(Debug)]
pub struct Channel {
    pub title: String,
    pub link: String,
    pub description: String,
    pub language: Option<String>,
    pub copyright: Option<String>,
    pub itunes_ext: Option<ITunesChannelExtension>,
    pub items: Vec<Item>,
}

/// What a `Guid` holds, as mathematical values.
pub struct GuidView {
    pub value: Seq<char>,
    pub permalink: bool,
}

/// What an `Enclosure` holds, as mathematical values.
pub struct EnclosureView {
    pub url: Seq<char>,
    pub length: Seq<char>,
    pub mime_type: Seq<char>,
}

/// What an `ITunesItemExtension` holds, as mathematical values.
pub struct ITunesItemExtensionView {
    pub duration: Option<Seq<char>>,
    pub explicit: Option<Seq<char>>,
    pub image: Option<Seq<char>>,
    pub episode: Option<Seq<char>>,
    pub season: Option<Seq<char>>,
    pub episode_type: Option<Seq<char>>,
    pub summary: Option<Seq<char>>,
}

/// What an `Item` holds, as mathematical values.
pub struct ItemView {
    pub title: Option<Seq<char>>,
    pub link: Option<Seq<char>>,
    pub guid: Option<GuidView>,
    pub description: Option<Seq<char>>,
    pub pub_date: Option<Seq<char>>,
    pub enclosure: Option<EnclosureView>,
    pub itunes_ext: Option<ITunesItemExtensionView>,
}

/// What an `ITunesChannelExtension` holds, as mathematical values.
pub struct ITunesChannelExtensionView {
    pub author: Option<Seq<char>>,
    pub image: Option<Seq<char>>,
    pub explicit: Option<Seq<char>>,
    pub summary: Option<Seq<char>>,
    pub podcast_type: Option<Seq<char>>,
}

/// What a `Channel` holds, as mathematical values.
pub struct ChannelView {
    pub title: Seq<char>,
    pub link: Seq<char>,
    pub description: Seq<char>,
    pub language: Option<Seq<char>>,
    pub copyright: Option<Seq<char>>,
    pub itunes_ext: Option<ITunesChannelExtensionView>,
    pub items: Seq<ItemView>,
}

impl View for Guid {
    type V = GuidView;

    open spec fn view(&self) -> GuidView {
        GuidView { value: self.value@, permalink: self.permalink }
    }
}

impl View for Enclosure {
    type V = EnclosureView;

    open spec fn view(&self) -> EnclosureView {
        EnclosureView { url: self.url@, length: self.length@, mime_type: self.mime_type@ }
    }
}

impl View for ITunesItemExtension {
    type V = ITunesItemExtensionView;

    open spec fn view(&self) -> ITunesItemExtensionView {
        ITunesItemExtensionView {
            duration: opt_text(self.duration),
            explicit: opt_text(self.explicit),
            image: opt_text(self.image),
            episode: opt_text(self.episode),
            season: opt_text(self.season),
            episode_type: opt_text(self.episode_type),
            summary: opt_text(self.summary),
        }
    }
}

impl View for Item {
    type V = ItemView;

    open spec fn view(&self) -> ItemView {
        ItemView {
            title: opt_text(self.title),
            link: opt_text(self.link),
            guid: match self.guid {
                Some(g) => Some(g@),
                None => None,
            },
            description: opt_text(self.description),
            pub_date: opt_text(self.pub_date),
            enclosure: match self.enclosure {
                Some(e) => Some(e@),
                None => None,
            },
            itunes_ext: match self.itunes_ext {
                Some(e) => Some(e@),
                None => None,
            },
        }
    }
}

impl View for ITunesChannelExtension {
    type V = ITunesChannelExtensionView;

    open spec fn view(&self) -> ITunesChannelExtensionView {
        ITunesChannelExtensionView {
            author: opt_text(self.author),
            image: opt_text(self.image),
            explicit: opt_text(self.explicit),
            summary: opt_text(self.summary),
            podcast_type: opt_text(self.podcast_type),
        }
    }
}

/// The views of a sequence of items.
pub open spec fn item_views(items: Seq<Item>) -> Seq<ItemView> {
    items.map_values(|i: Item| i@)
}

impl View for Channel {
    type V = ChannelView;

    open spec fn view(&self) -> ChannelView {
        ChannelView {
            title: self.title@,
            link: self.link@,
            description: self.description@,
            language: opt_text(self.language),
            copyright: opt_text(self.copyright),
            itunes_ext: match self.itunes_ext {
                Some(e) => Some(e@),
                None => None,
            },
            items: item_views(self.items@),
        }
    }
}

/// `true` or `false`, written out.
pub open spec fn bool_text(value: bool) -> Seq<char> {
    if value {
        "true"@
    } else {
        "false"@
    }
}

/// The numeral of a number that may be absent.
pub open spec fn opt_digits(value: Option<nat>) -> Option<Seq<char>> {
    match value {
        Some(n) => Some(digits(n)),
        None => None,
    }
}

/// The address of a URL that may be absent.
pub open spec fn opt_address(url: Option<UrlView>) -> Option<Seq<char>> {
    match url {
        Some(u) => Some(u.text),
        None => None,
    }
}

/// A number that may be absent, as a natural number.
pub open spec fn opt_nat(value: Option<usize>) -> Option<nat> {
    match value {
        Some(n) => Some(n as nat),
        None => None,
    }
}

/// The enclosure of an episode: its audio, with the size and the type.
pub open spec fn enclosure_of(episode: EpisodeView) -> EnclosureView {
    EnclosureView {
        url: episode.audio_url.text,
        length: digits(episode.audio_file_size as nat),
        mime_type: episode.audio_content_type,
    }
}

/// What the iTunes extension says of an episode.
pub open spec fn itunes_item_of(episode: EpisodeView) -> ITunesItemExtensionView {
    ITunesItemExtensionView {
        duration: opt_digits(
            match episode.duration {
                Some(d) => Some(d as nat),
                None => None,
            },
        ),
        explicit: Some(bool_text(episode.explicit)),
        image: opt_address(episode.image_url),
        episode: opt_digits(opt_nat(episode.number)),
        season: opt_digits(opt_nat(episode.season)),
        episode_type: Some(episode_type_word(episode.episode_type)),
        summary: Some(episode.description),
    }
}

/// The item of an episode: the id is the GUID and no permalink, the audio
/// the link and the enclosure, the date stands in the form of RFC 2822.
pub open spec fn item_of(episode: EpisodeView) -> ItemView {
    ItemView {
        title: Some(episode.title),
        link: Some(episode.audio_url.text),
        guid: Some(GuidView { value: episode.id, permalink: false }),
        description: Some(episode.description),
        pub_date: episode.published_at.spec_rfc2822(),
        enclosure: Some(enclosure_of(episode)),
        itunes_ext: Some(itunes_item_of(episode)),
    }
}

/// What the iTunes extension says of a podcast.
pub open spec fn itunes_channel_of(podcast: PodcastView) -> ITunesChannelExtensionView {
    ITunesChannelExtensionView {
        author: podcast.author,
        image: opt_address(podcast.image_url),
        explicit: Some(bool_text(podcast.explicit)),
        summary: Some(podcast.description),
        podcast_type: Some(podcast_type_word(podcast.podcast_type)),
    }
}

/// The feed of a podcast, with an item for each episode, in order.
pub open spec fn channel_of(podcast: PodcastView) -> ChannelView {
    ChannelView {
        title: podcast.title,
        link: podcast.link.text,
        description: podcast.description,
        language: Some(podcast.language),
        copyright: podcast.copyright,
        itunes_ext: Some(itunes_channel_of(podcast)),
        items: podcast.episodes.map_values(|e: EpisodeView| item_of(e)),
    }
}

fn bool_string(value: bool) -> (text: String)
    ensures
        text@ == bool_text(value),
{
    if value {
        "true".to_owned()
    } else {
        "false".to_owned()
    }
}

fn number_string(value: u64) -> (text: String)
    ensures
        text@ == digits(value as nat),
{
    string_from_chars(&decimal_chars(value))
}

fn opt_number_string(value: Option<usize>) -> (text: Option<String>)
    ensures
        opt_text(text) == opt_digits(opt_nat(value)),
{
    match value {
        Some(n) => Some(number_string(n as u64)),
        None => None,
    }
}

fn url_string(url: &Option<Url>) -> (text: Option<String>)
    ensures
        opt_text(text) == opt_address(opt_url(*url)),
{
    match url {
        Some(u) => Some(u.text.clone()),
        None => None,
    }
}

impl Enclosure {
    /// The enclosure of an episode.
    pub fn from_episode(episode: &Episode) -> (enclosure: Enclosure)
        ensures
            enclosure@ == enclosure_of(episode@),
    {
        Enclosure {
            url: episode.audio_url.text.clone(),
            length: number_string(episode.audio_file_size),
            mime_type: episode.audio_content_type.clone(),
        }
    }
}

impl ITunesItemExtension {
    /// What the iTunes extension says of an episode.
    pub fn from_episode(episode: &Episode) -> (extension: ITunesItemExtension)
        ensures
            extension@ == itunes_item_of(episode@),
    {
        ITunesItemExtension {
            duration: match episode.duration {
                Some(d) => Some(number_string(d)),
                None => None,
            },
            explicit: Some(bool_string(episode.explicit)),
            image: url_string(&episode.image_url),
            episode: opt_number_string(episode.number),
            season: opt_number_string(episode.season),
            episode_type: Some(episode.episode_type.as_lowercase().to_owned()),
            summary: Some(episode.description.clone()),
        }
    }
}

impl Item {
    /// The item of an episode.
    pub fn from_episode(episode: &Episode) -> (item: Item)
        ensures
            item@ == item_of(episode@),
    {
        Item {
            title: Some(episode.title.clone()),
            link: Some(episode.audio_url.text.clone()),
            guid: Some(Guid { value: episode.id.clone(), permalink: false }),
            description: Some(episode.description.clone()),
            pub_date: episode.published_at.to_rfc2822(),
            enclosure: Some(Enclosure::from_episode(episode)),
            itunes_ext: Some(ITunesItemExtension::from_episode(episode)),
        }
    }
}

impl ITunesChannelExtension {
    /// What the iTunes extension says of a podcast.
    pub fn from_podcast(podcast: &Podcast) -> (extension: ITunesChannelExtension)
        ensures
            extension@ == itunes_channel_of(podcast@),
    {
        ITunesChannelExtension {
            author: podcast.author.clone(),
            image: url_string(&podcast.image_url),
            explicit: Some(bool_string(podcast.explicit)),
            summary: Some(podcast.description.clone()),
            podcast_type: Some(podcast.podcast_type.as_lowercase().to_owned()),
        }
    }
}

impl Channel {
    /// The feed of a podcast.
    pub fn from_podcast(podcast: &Podcast) -> (channel: Channel)
        ensures
            channel@ == channel_of(podcast@),
    {
        let mut items: Vec<Item> = Vec::new();
        let ghost all = podcast@.episodes;
        let mut i: usize = 0;
        while i < podcast.episodes.len()
            invariant
                i <= podcast.episodes.len(),
                all == podcast@.episodes,
                all.len() == podcast.episodes.len(),
                item_views(items@) == all.take(i as int).map_values(|e: EpisodeView| item_of(e)),
            decreases podcast.episodes.len() - i,
        {
            let item = Item::from_episode(&podcast.episodes[i]);
            proof {
                assert(item_views(items@.push(item)) == item_views(items@).push(item@));
            }
            items.push(item);
            i += 1;
        }
        assert(all.take(all.len() as int) == all);
        Channel {
            title: podcast.title.clone(),
            link: podcast.link.text.clone(),
            description: podcast.description.clone(),
            language: Some(podcast.language.clone()),
            copyright: podcast.copyright.clone(),
            itunes_ext: Some(ITunesChannelExtension::from_podcast(podcast)),
            items,
        }
    }
}

/// Why a feed did not become a podcast. An error about an item carries the
/// item's place in the feed, counted from 0.
#[derive(Debug)]
pub enum PodcastConvertError {
    /// The link of the channel is no URL.
    InvalidLink(String),
    /// The item has no GUID.
    MissingGuid(usize),
    /// The item has no title.
    MissingTitle(usize),
    /// The item has no enclosure.
    MissingEnclosure(usize),
    /// The address of the item's enclosure is no URL.
    InvalidEnclosure(usize, String),
    /// The item has no date of publication.
    MissingDate(usize),
    /// The item's date of publication is none in the form of RFC 2822.
    InvalidDate(usize, String),
}

/// What a `PodcastConvertError` holds, as mathematical values.
pub enum PodcastConvertErrorView {
    InvalidLink(Seq<char>),
    MissingGuid(usize),
    MissingTitle(usize),
    MissingEnclosure(usize),
    InvalidEnclosure(usize, Seq<char>),
    MissingDate(usize),
    InvalidDate(usize, Seq<char>),
}

impl View for PodcastConvertError {
    type V = PodcastConvertErrorView;

    open spec fn view(&self) -> PodcastConvertErrorView {
        match self {
            PodcastConvertError::InvalidLink(link) => PodcastConvertErrorView::InvalidLink(link@),
            PodcastConvertError::MissingGuid(i) => PodcastConvertErrorView::MissingGuid(*i),
            PodcastConvertError::MissingTitle(i) => PodcastConvertErrorView::MissingTitle(*i),
            PodcastConvertError::MissingEnclosure(i) => PodcastConvertErrorView::MissingEnclosure(
                *i,
            ),
            PodcastConvertError::InvalidEnclosure(i, url) => PodcastConvertErrorView::InvalidEnclosure(
                *i,
                url@,
            ),
            PodcastConvertError::MissingDate(i) => PodcastConvertErrorView::MissingDate(*i),
            PodcastConvertError::InvalidDate(i, date) => PodcastConvertErrorView::InvalidDate(
                *i,
                date@,
            ),
        }
    }
}

/// What the user reads of a `PodcastConvertError`.
pub open spec fn convert_error_message(error: PodcastConvertErrorView) -> Seq<char> {
    match error {
        PodcastConvertErrorView::InvalidLink(link) => "Link of the channel is not a URL: "@ + link,
        PodcastConvertErrorView::MissingGuid(i) => "Item "@ + digits(i as nat) + " has no GUID"@,
        PodcastConvertErrorView::MissingTitle(i) => "Item "@ + digits(i as nat) + " has no title"@,
        PodcastConvertErrorView::MissingEnclosure(i) => "Item "@ + digits(i as nat)
            + " has no enclosure"@,
        PodcastConvertErrorView::InvalidEnclosure(i, url) => "Item "@ + digits(i as nat)
            + " has an enclosure that is not a URL: "@ + url,
        PodcastConvertErrorView::MissingDate(i) => "Item "@ + digits(i as nat)
            + " has no publication date"@,
        PodcastConvertErrorView::InvalidDate(i, date) => "Item "@ + digits(i as nat)
            + " has a publication date that is not valid: "@ + date,
    }
}

fn item_message(index: usize, middle: &str, detail: &str) -> (text: String)
    ensures
        text@ == "Item "@ + digits(index as nat) + middle@ + detail@,
{
    let mut out = chars_of("Item ");
    push_chars(&mut out, &decimal_chars(index as u64));
    push_str(&mut out, middle);
    push_str(&mut out, detail);
    string_from_chars(&out)
}

impl PodcastConvertError {
    /// Writes the error out for the user.
    pub fn message(&self) -> (text: String)
        ensures
            text@ == convert_error_message(self@),
    {
        proof {
            reveal_strlit("");
        }
        match self {
            PodcastConvertError::InvalidLink(link) => {
                let mut out = chars_of("Link of the channel is not a URL: ");
                push_str(&mut out, link.as_str());
                string_from_chars(&out)
            },
            PodcastConvertError::MissingGuid(i) => {
                let text = item_message(*i, " has no GUID", "");
                text
            },
            PodcastConvertError::MissingTitle(i) => {
                let text = item_message(*i, " has no title", "");
                text
            },
            PodcastConvertError::MissingEnclosure(i) => {
                let text = item_message(*i, " has no enclosure", "");
                text
            },
            PodcastConvertError::InvalidEnclosure(i, url) => item_message(
                *i,
                " has an enclosure that is not a URL: ",
                url.as_str(),
            ),
            PodcastConvertError::MissingDate(i) => {
                let text = item_message(*i, " has no publication date", "");
                text
            },
            PodcastConvertError::InvalidDate(i, date) => item_message(
                *i,
                " has a publication date that is not valid: ",
                date.as_str(),
            ),
        }
    }
}

/// Whether a feed's word says yes: it is `true` or `yes`.
pub open spec fn is_yes(text: Option<Seq<char>>) -> bool {
    text == Some("true"@) || text == Some("yes"@)
}

/// The number, where it fits 64 bits.
pub open spec fn fits(n: int) -> Option<u64> {
    if 0 <= n <= u64::MAX {
        Some(n as u64)
    } else {
        None
    }
}

/// The seconds of a duration that is written as seconds, as minutes and
/// seconds, or as hours, minutes and seconds, parted by colons.
pub open spec fn duration_of(text: Seq<char>) -> Option<u64> {
    let parts = split(text, ':');
    if parts.len() == 1 {
        parsed_u64(parts[0])
    } else if parts.len() == 2 {
        match (parsed_u64(parts[0]), parsed_u64(parts[1])) {
            (Some(m), Some(s)) => fits(m * 60 + s),
            _ => None,
        }
    } else if parts.len() == 3 {
        match (parsed_u64(parts[0]), parsed_u64(parts[1]), parsed_u64(parts[2])) {
            (Some(h), Some(m), Some(s)) => fits((h * 60 + m) * 60 + s),
            _ => None,
        }
    } else {
        None
    }
}

/// The number that a numeral stands for, where it fits the machine's word.
pub open spec fn parsed_usize(text: Seq<char>) -> Option<usize> {
    match parsed_u64(text) {
        Some(v) => if v <= usize::MAX {
            Some(v as usize)
        } else {
            None
        },
        None => None,
    }
}

/// The extension of an item, with nothing in it where the item has none.
pub open spec fn extension_of(item: ItemView) -> ITunesItemExtensionView {
    match item.itunes_ext {
        Some(e) => e,
        None => ITunesItemExtensionView {
            duration: None,
            explicit: None,
            image: None,
            episode: None,
            season: None,
            episode_type: None,
            summary: None,
        },
    }
}

/// The URL that a text names, where the text is there and names one.
pub open spec fn opt_parsed(text: Option<Seq<char>>) -> Option<UrlView> {
    match text {
        Some(t) => parsed(t),
        None => None,
    }
}

/// The episode that an item becomes. The item needs a GUID, a title, an
/// enclosure with a URL, and a date of publication in the form of RFC 2822;
/// the first of these that is missing is the error. Whatever else is missing
/// or cannot be read is left out of the episode.
pub open spec fn episode_of(index: usize, item: ItemView) -> Result<
    EpisodeView,
    PodcastConvertErrorView,
> {
    let extension = extension_of(item);
    match (item.guid, item.title, item.enclosure, item.pub_date) {
        (None, _, _, _) => Err(PodcastConvertErrorView::MissingGuid(index)),
        (Some(_), None, _, _) => Err(PodcastConvertErrorView::MissingTitle(index)),
        (Some(_), Some(_), None, _) => Err(PodcastConvertErrorView::MissingEnclosure(index)),
        (Some(guid), Some(title), Some(enclosure), date) => match parsed(enclosure.url) {
            None => Err(PodcastConvertErrorView::InvalidEnclosure(index, enclosure.url)),
            Some(audio_url) => match date {
                None => Err(PodcastConvertErrorView::MissingDate(index)),
                Some(date) => match Timestamp::spec_parse_rfc2822(date) {
                    None => Err(PodcastConvertErrorView::InvalidDate(index, date)),
                    Some(published_at) => Ok(
                        EpisodeView {
                            id: guid.value,
                            title,
                            description: match item.description {
                                Some(d) => d,
                                None => Seq::empty(),
                            },
                            audio_url,
                            audio_file_size: match parsed_u64(enclosure.length) {
                                Some(n) => n,
                                None => 0,
                            },
                            audio_content_type: enclosure.mime_type,
                            duration: match extension.duration {
                                Some(d) => duration_of(d),
                                None => None,
                            },
                            image_url: opt_parsed(extension.image),
                            explicit: is_yes(extension.explicit),
                            episode_type: match extension.episode_type {
                                Some(word) => episode_type_of(word),
                                None => EpisodeType::Full,
                            },
                            season: match extension.season {
                                Some(s) => parsed_usize(s),
                                None => None,
                            },
                            number: match extension.episode {
                                Some(n) => parsed_usize(n),
                                None => None,
                            },
                            published_at,
                        },
                    ),
                },
            },
        },
    }
}

/// The episodes that the items become, in order; or the error of the first
/// item that becomes none.
pub open spec fn episodes_of(items: Seq<ItemView>) -> Result<
    Seq<EpisodeView>,
    PodcastConvertErrorView,
>
    decreases items.len(),
{
    if items.len() == 0 {
        Ok(Seq::empty())
    } else {
        match episodes_of(items.drop_last()) {
            Err(e) => Err(e),
            Ok(before) => match episode_of((items.len() - 1) as usize, items.last()) {
                Ok(episode) => Ok(before.push(episode)),
                Err(e) => Err(e),
            },
        }
    }
}

/// The extension of a channel, with nothing in it where the channel has none.
pub open spec fn channel_extension_of(channel: ChannelView) -> ITunesChannelExtensionView {
    match channel.itunes_ext {
        Some(e) => e,
        None => ITunesChannelExtensionView {
            author: None,
            image: None,
            explicit: None,
            summary: None,
            podcast_type: None,
        },
    }
}

/// The podcast that a feed becomes. Its link must be a URL and each of its
/// items must become an episode. The podcast has no id and no GUID yet; the
/// time of its creation is given.
pub open spec fn podcast_of(channel: ChannelView, created_at: Timestamp) -> Result<
    PodcastView,
    PodcastConvertErrorView,
> {
    let extension = channel_extension_of(channel);
    match parsed(channel.link) {
        None => Err(PodcastConvertErrorView::InvalidLink(channel.link)),
        Some(link) => match episodes_of(channel.items) {
            Err(e) => Err(e),
            Ok(episodes) => Ok(
                PodcastView {
                    id: Seq::empty(),
                    guid: Seq::empty(),
                    title: channel.title,
                    description: channel.description,
                    image_url: opt_parsed(extension.image),
                    language: match channel.language {
                        Some(l) => l,
                        None => Seq::empty(),
                    },
                    category: None,
                    sub_category: None,
                    explicit: is_yes(extension.explicit),
                    author: extension.author,
                    link,
                    podcast_type: match extension.podcast_type {
                        Some(word) => podcast_type_of(word),
                        None => PodcastType::Episodic,
                    },
                    copyright: channel.copyright,
                    created_at,
                    episodes,
                },
            ),
        },
    }
}

fn to_yes(text: &Option<String>) -> (yes: bool)
    ensures
        yes == is_yes(opt_text(*text)),
{
    match text {
        Some(t) => str_eq(t.as_str(), "true") || str_eq(t.as_str(), "yes"),
        None => false,
    }
}

fn to_url(text: &Option<String>) -> (url: Option<Url>)
    ensures
        opt_url(url) == opt_parsed(opt_text(*text)),
{
    match text {
        Some(t) => Url::parse(t.as_str()),
        None => None,
    }
}

fn to_usize(text: &Option<String>) -> (value: Option<usize>)
    ensures
        value == (match opt_text(*text) {
            Some(t) => parsed_usize(t),
            None => None,
        }),
{
    match text {
        Some(t) => match parse_decimal(t.as_str()) {
            Some(v) => if v <= usize::MAX as u64 {
                Some(v as usize)
            } else {
                None
            },
            None => None,
        },
        None => None,
    }
}

/// Reads a duration that is written as seconds, as minutes and seconds, or as
/// hours, minutes and seconds. `None` where the text is none of these, or the
/// seconds do not fit 64 bits.
pub fn parse_duration(text: &str) -> (seconds: Option<u64>)
    ensures
        seconds == duration_of(text@),
{
    let parts = split_chars(&chars_of(text), ':');
    if parts.len() == 1 {
        parse_decimal_chars(&parts[0])
    } else if parts.len() == 2 {
        let minutes = parse_decimal_chars(&parts[0]);
        let seconds = parse_decimal_chars(&parts[1]);
        match (minutes, seconds) {
            (Some(m), Some(s)) => match m.checked_mul(60) {
                Some(in_seconds) => in_seconds.checked_add(s),
                None => None,
            },
            _ => None,
        }
    } else if parts.len() == 3 {
        let hours = parse_decimal_chars(&parts[0]);
        let minutes = parse_decimal_chars(&parts[1]);
        let seconds = parse_decimal_chars(&parts[2]);
        match (hours, minutes, seconds) {
            (Some(h), Some(m), Some(s)) => {
                let in_minutes = match h.checked_mul(60) {
                    Some(v) => v.checked_add(m),
                    None => None,
                };
                match in_minutes {
                    Some(v) => match v.checked_mul(60) {
                        Some(in_seconds) => in_seconds.checked_add(s),
                        None => None,
                    },
                    None => None,
                }
            },
            _ => None,
        }
    } else {
        None
    }
}

impl Item {
    /// Turns the item at the place `index` of its feed into an episode.
    pub fn into_episode(self, index: usize) -> (episode: Result<Episode, PodcastConvertError>)
        ensures
            match episode {
                Ok(e) => episode_of(index, self@) == Ok::<EpisodeView, PodcastConvertErrorView>(e@),
                Err(e) => episode_of(index, self@) == Err::<EpisodeView, PodcastConvertErrorView>(
                    e@,
                ),
            },
    {
        let guid = match self.guid {
            Some(guid) => guid,
            None => {
                return Err(PodcastConvertError::MissingGuid(index));
            },
        };
        let title = match self.title {
            Some(title) => title,
            None => {
                return Err(PodcastConvertError::MissingTitle(index));
            },
        };
        let enclosure = match self.enclosure {
            Some(enclosure) => enclosure,
            None => {
                return Err(PodcastConvertError::MissingEnclosure(index));
            },
        };
        let audio_url = match Url::parse(enclosure.url.as_str()) {
            Some(url) => url,
            None => {
                return Err(PodcastConvertError::InvalidEnclosure(index, enclosure.url));
            },
        };
        let date = match self.pub_date {
            Some(date) => date,
            None => {
                return Err(PodcastConvertError::MissingDate(index));
            },
        };
        let published_at = match Timestamp::parse_from_rfc2822(date.as_str()) {
            Some(published_at) => published_at,
            None => {
                return Err(PodcastConvertError::InvalidDate(index, date));
            },
        };
        let extension = match self.itunes_ext {
            Some(e) => e,
            None => ITunesItemExtension {
                duration: None,
                explicit: None,
                image: None,
                episode: None,
                season: None,
                episode_type: None,
                summary: None,
            },
        };
        let episode_type: EpisodeType = match extension.episode_type {
            Some(word) => EpisodeType::from(word),
            None => EpisodeType::Full,
        };
        Ok(
            Episode {
                id: guid.value,
                title,
                description: match self.description {
                    Some(d) => d,
                    None => String::new(),
                },
                audio_url,
                audio_file_size: match parse_decimal(enclosure.length.as_str()) {
                    Some(n) => n,
                    None => 0,
                },
                audio_content_type: enclosure.mime_type,
                duration: match &extension.duration {
                    Some(d) => parse_duration(d.as_str()),
                    None => None,
                },
                image_url: to_url(&extension.image),
                explicit: to_yes(&extension.explicit),
                episode_type,
                season: to_usize(&extension.season),
                number: to_usize(&extension.episode),
                published_at,
            },
        )
    }
}

impl Channel {
    /// Turns the feed into a podcast that was created at the time given.
    pub fn into_podcast(self, created_at: Timestamp) -> (podcast: Result<
        Podcast,
        PodcastConvertError,
    >)
        ensures
            match podcast {
                Ok(p) => podcast_of(self@, created_at) == Ok::<PodcastView, PodcastConvertErrorView>(
                    p@,
                ),
                Err(e) => podcast_of(self@, created_at) == Err::<
                    PodcastView,
                    PodcastConvertErrorView,
                >(e@),
            },
    {
        let link = match Url::parse(self.link.as_str()) {
            Some(link) => link,
            None => {
                return Err(PodcastConvertError::InvalidLink(self.link));
            },
        };
        let ghost channel = self@;
        let ghost all = item_views(self.items@);
        let total = self.items.len();
        let ghost count = total as nat;
        let mut episodes: Vec<Episode> = Vec::new();
        let mut index: usize = 0;
        assert(episode_views(episodes@) == Seq::<EpisodeView>::empty());
        for item in it: self.items
            invariant
                channel == self@,
                channel.items == all,
                parsed(channel.link) is Some,
                count == it.seq().len(),
                count <= usize::MAX,
                index == it.index(),
                all == item_views(it.seq()),
                episodes_of(all.take(it.index() as int)) == Ok::<
                    Seq<EpisodeView>,
                    PodcastConvertErrorView,
                >(episode_views(episodes@)),
                all.len() == it.seq().len(),
        {
            let ghost i = it.index() as int;
            proof {
                assert(all.take(i + 1).drop_last() == all.take(i));
            }
            match item.into_episode(index) {
                Ok(episode) => {
                    proof {
                        lemma_episode_views_push(episodes@, episode);
                    }
                    episodes.push(episode);
                    index += 1;
                },
                Err(e) => {
                    proof {
                        lemma_episodes_of_fails(all, i + 1);
                    }
                    return Err(e);
                },
            }
        }
        assert(all.take(all.len() as int) == all);
        let extension = match self.itunes_ext {
            Some(e) => e,
            None => ITunesChannelExtension {
                author: None,
                image: None,
                explicit: None,
                summary: None,
                podcast_type: None,
            },
        };
        let podcast_type: PodcastType = match extension.podcast_type {
            Some(word) => PodcastType::from(word),
            None => PodcastType::Episodic,
        };
        Ok(
            Podcast {
                id: String::new(),
                guid: String::new(),
                title: self.title,
                description: self.description,
                image_url: to_url(&extension.image),
                language: match self.language {
                    Some(l) => l,
                    None => String::new(),
                },
                category: None,
                sub_category: None,
                explicit: to_yes(&extension.explicit),
                author: extension.author,
                link,
                podcast_type,
                copyright: self.copyright,
                created_at,
                episodes,
            },
        )
    }
}

/// Where the first `n` items fail, all the items fail in the same way.
proof fn lemma_episodes_of_fails(items: Seq<ItemView>, n: int)
    requires
        0 <= n <= items.len(),
        episodes_of(items.take(n)) is Err,
    ensures
        episodes_of(items) == episodes_of(items.take(n)),
    decreases items.len() - n,
{
    if n == items.len() {
        assert(items.take(n) == items);
    } else {
        assert(items.take(n + 1).drop_last() == items.take(n));
        lemma_episodes_of_fails(items, n + 1);
    }
}

} // verus!
