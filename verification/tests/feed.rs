use pura::schema::episode::{Episode, EpisodeType};
use pura::schema::feed::{
    parse_duration, Channel, Enclosure, Guid, ITunesChannelExtension, ITunesItemExtension, Item,
    PodcastConvertError,
};
use pura::schema::podcast::{Podcast, PodcastType};
use pura::text::{chars_of, parse_decimal, split_chars};
use pura::timestamp::Timestamp;
use pura::web::Url;

fn episode_example() -> Episode {
    Episode {
        id: "550e8400-e29b-41d4-a716-446655440000".to_string(),
        title: "Lorem ipsum dolor sit amet".to_string(),
        description: "Aenean sit amet sem quis velit viverra vestibulum.".to_string(),
        image_url: Some(Url::parse("https://example.com/image.jpg").expect("URL should be valid")),
        audio_url: Url::parse("https://example.com/season-1/episode-1.mp3")
            .expect("URL should be valid"),
        episode_type: EpisodeType::default(),
        season: Some(2),
        number: Some(3),
        audio_file_size: 1024,
        audio_content_type: "audio/mpeg".to_owned(),
        published_at: Timestamp::new(0, 0, 0).expect("epoch should be valid"),
        duration: None,
        explicit: false,
    }
}

fn podcast_example() -> Podcast {
    Podcast {
        id: "test".to_owned(),
        guid: "29e09be7-ee09-4671-9130-0da5b958e9a2".to_owned(),
        title: "Podcast Title".to_owned(),
        description: "Sed ac volutpat tortor.".to_owned(),
        image_url: None,
        language: "en-us".to_owned(),
        category: None,
        sub_category: None,
        explicit: false,
        author: None,
        link: Url::parse("https://example.com/").expect("URL should be valid"),
        podcast_type: PodcastType::default(),
        copyright: None,
        created_at: Timestamp::new(1_700_000_000, 0, 0).expect("should be valid"),
        episodes: vec![episode_example()],
    }
}

fn item() -> Item {
    Item {
        title: Some("From the feed".to_owned()),
        link: Some("https://example.com/episodes/1".to_owned()),
        guid: Some(Guid { value: "guid-1".to_owned(), permalink: false }),
        description: Some("<p>Words</p>".to_owned()),
        pub_date: Some("Tue, 1 Jul 2003 10:52:37 +0200".to_owned()),
        enclosure: Some(Enclosure {
            url: "https://cdn.example.com/audio/1.m4a".to_owned(),
            length: "123456".to_owned(),
            mime_type: "audio/x-m4a".to_owned(),
        }),
        itunes_ext: Some(ITunesItemExtension {
            duration: Some("1:02:03".to_owned()),
            explicit: Some("yes".to_owned()),
            image: Some("https://cdn.example.com/art/1.png".to_owned()),
            episode: Some("7".to_owned()),
            season: Some("2".to_owned()),
            episode_type: Some("trailer".to_owned()),
            summary: None,
        }),
    }
}

fn channel(items: Vec<Item>) -> Channel {
    Channel {
        title: "A Feed".to_owned(),
        link: "https://example.com/show".to_owned(),
        description: "About the feed".to_owned(),
        language: Some("en".to_owned()),
        copyright: Some("2003".to_owned()),
        itunes_ext: Some(ITunesChannelExtension {
            author: Some("Someone".to_owned()),
            image: Some("https://cdn.example.com/art/show.png".to_owned()),
            explicit: Some("true".to_owned()),
            summary: None,
            podcast_type: Some("serial".to_owned()),
        }),
        items,
    }
}

#[test]
fn to_rss() {
    // Arrange
    let podcast = &podcast_example();

    // Act
    let channel = Channel::from_podcast(podcast);

    // Assert
    assert_eq!(channel.title, "Podcast Title");
    assert_eq!(channel.link, "https://example.com/");
    assert_eq!(channel.description, "Sed ac volutpat tortor.");
    assert_eq!(channel.language, Some("en-us".to_owned()));
    assert_eq!(channel.copyright, None);
    let extension = channel.itunes_ext.expect("should have an extension");
    assert_eq!(extension.author, None);
    assert_eq!(extension.image, None);
    assert_eq!(extension.explicit, Some("false".to_owned()));
    assert_eq!(extension.summary, Some("Sed ac volutpat tortor.".to_owned()));
    assert_eq!(extension.podcast_type, Some("episodic".to_owned()));
    assert_eq!(channel.items.len(), 1);
    let item = &channel.items[0];
    assert_eq!(item.title, Some("Lorem ipsum dolor sit amet".to_owned()));
    assert_eq!(item.link, Some("https://example.com/season-1/episode-1.mp3".to_owned()));
    let guid = item.guid.as_ref().expect("should have a guid");
    assert_eq!(guid.value, "550e8400-e29b-41d4-a716-446655440000");
    assert!(!guid.permalink);
    assert_eq!(item.pub_date, Some("Thu, 1 Jan 1970 00:00:00 +0000".to_owned()));
    let enclosure = item.enclosure.as_ref().expect("should have an enclosure");
    assert_eq!(enclosure.url, "https://example.com/season-1/episode-1.mp3");
    assert_eq!(enclosure.length, "1024");
    assert_eq!(enclosure.mime_type, "audio/mpeg");
    let extension = item.itunes_ext.as_ref().expect("should have an extension");
    assert_eq!(extension.duration, None);
    assert_eq!(extension.explicit, Some("false".to_owned()));
    assert_eq!(extension.image, Some("https://example.com/image.jpg".to_owned()));
    assert_eq!(extension.episode, Some("3".to_owned()));
    assert_eq!(extension.season, Some("2".to_owned()));
    assert_eq!(extension.episode_type, Some("full".to_owned()));
}

#[test]
fn date_is_written_and_read_in_the_form_of_rfc_2822() {
    let stamp = Timestamp::new(1_057_049_557, 0, 7_200).expect("valid");
    assert_eq!(stamp.to_rfc2822(), Some("Tue, 1 Jul 2003 10:52:37 +0200".to_owned()));
    let read = Timestamp::parse_from_rfc2822("Tue, 1 Jul 2003 10:52:37 +0200").expect("valid");
    assert_eq!(read.unix_seconds(), 1_057_049_557);
    assert_eq!(read.offset_seconds(), 7_200);
    assert_eq!(read.subsec_nanos(), 0);
    assert!(Timestamp::parse_from_rfc2822("2003-07-01").is_none());
    assert!(Timestamp::parse_from_rfc2822("").is_none());
    let late = Timestamp::new(253_402_300_800, 0, 0).expect("valid");
    assert_eq!(late.year(), 10_000);
    assert_eq!(late.to_rfc2822(), None);
    let early = Timestamp::new(-62_167_219_201, 0, 0).expect("valid");
    assert_eq!(early.year(), -1);
    assert_eq!(early.to_rfc2822(), None);
}

#[test]
fn item_becomes_an_episode() {
    let episode = item().into_episode(0).expect("should convert");
    assert_eq!(episode.id, "guid-1");
    assert_eq!(episode.title, "From the feed");
    assert_eq!(episode.description, "<p>Words</p>");
    assert_eq!(episode.audio_url.as_str(), "https://cdn.example.com/audio/1.m4a");
    assert_eq!(episode.audio_file_size, 123_456);
    assert_eq!(episode.audio_content_type, "audio/x-m4a");
    assert_eq!(episode.duration, Some(3_723));
    assert_eq!(
        episode.image_url.as_ref().map(|u| u.as_str().to_owned()),
        Some("https://cdn.example.com/art/1.png".to_owned())
    );
    assert!(episode.explicit);
    assert_eq!(episode.episode_type, EpisodeType::Trailer);
    assert_eq!(episode.season, Some(2));
    assert_eq!(episode.number, Some(7));
    assert_eq!(episode.published_at.unix_seconds(), 1_057_049_557);
    assert_eq!(episode.published_at.offset_seconds(), 7_200);
    assert_eq!(episode.get_file_stem(), "2003-07-01 0007 From the feed");
}

#[test]
fn item_without_an_extension_has_what_is_usual() {
    let mut plain = item();
    plain.itunes_ext = None;
    plain.description = None;
    plain.enclosure.as_mut().expect("enclosure").length = "about a megabyte".to_owned();
    let episode = plain.into_episode(0).expect("should convert");
    assert_eq!(episode.description, "");
    assert_eq!(episode.audio_file_size, 0);
    assert_eq!(episode.duration, None);
    assert!(episode.image_url.is_none());
    assert!(!episode.explicit);
    assert_eq!(episode.episode_type, EpisodeType::Full);
    assert_eq!(episode.season, None);
    assert_eq!(episode.number, None);
}

#[test]
fn item_that_lacks_something_names_what_it_lacks() {
    let mut no_guid = item();
    no_guid.guid = None;
    no_guid.title = None;
    assert!(matches!(no_guid.into_episode(4), Err(PodcastConvertError::MissingGuid(4))));
    let mut no_title = item();
    no_title.title = None;
    no_title.enclosure = None;
    assert!(matches!(no_title.into_episode(4), Err(PodcastConvertError::MissingTitle(4))));
    let mut no_enclosure = item();
    no_enclosure.enclosure = None;
    assert!(matches!(no_enclosure.into_episode(4), Err(PodcastConvertError::MissingEnclosure(4))));
    let mut bad_enclosure = item();
    bad_enclosure.enclosure.as_mut().expect("enclosure").url = "audio.mp3".to_owned();
    bad_enclosure.pub_date = None;
    assert!(matches!(
        bad_enclosure.into_episode(4),
        Err(PodcastConvertError::InvalidEnclosure(4, url)) if url == "audio.mp3"
    ));
    let mut no_date = item();
    no_date.pub_date = None;
    assert!(matches!(no_date.into_episode(4), Err(PodcastConvertError::MissingDate(4))));
    let mut bad_date = item();
    bad_date.pub_date = Some("1 July 2003".to_owned());
    assert!(matches!(
        bad_date.into_episode(4),
        Err(PodcastConvertError::InvalidDate(4, date)) if date == "1 July 2003"
    ));
}

#[test]
fn feed_becomes_a_podcast() {
    let created_at = Timestamp::new(1_700_000_000, 0, 0).expect("valid");
    let mut second = item();
    second.guid = Some(Guid { value: "guid-2".to_owned(), permalink: true });
    let podcast = channel(vec![item(), second]).into_podcast(created_at).expect("should convert");
    assert_eq!(podcast.id, "");
    assert_eq!(podcast.guid, "");
    assert_eq!(podcast.title, "A Feed");
    assert_eq!(podcast.description, "About the feed");
    assert_eq!(podcast.language, "en");
    assert_eq!(podcast.copyright, Some("2003".to_owned()));
    assert_eq!(podcast.author, Some("Someone".to_owned()));
    assert_eq!(podcast.link.as_str(), "https://example.com/show");
    assert!(podcast.explicit);
    assert_eq!(podcast.podcast_type, PodcastType::Serial);
    assert_eq!(
        podcast.image_url.as_ref().map(|u| u.as_str().to_owned()),
        Some("https://cdn.example.com/art/show.png".to_owned())
    );
    assert_eq!(podcast.created_at.unix_seconds(), 1_700_000_000);
    let ids: Vec<&str> = podcast.episodes.iter().map(|e| e.id.as_str()).collect();
    assert_eq!(ids, vec!["guid-1", "guid-2"]);
}

#[test]
fn feed_fails_with_the_error_of_its_first_bad_item() {
    let created_at = Timestamp::new(1_700_000_000, 0, 0).expect("valid");
    let mut second = item();
    second.pub_date = None;
    let mut third = item();
    third.guid = None;
    assert!(matches!(
        channel(vec![item(), second, third]).into_podcast(created_at),
        Err(PodcastConvertError::MissingDate(1))
    ));
    let mut bad = channel(vec![item()]);
    bad.link = "example.com".to_owned();
    assert!(matches!(
        bad.into_podcast(created_at),
        Err(PodcastConvertError::InvalidLink(link)) if link == "example.com"
    ));
    let mut bare = channel(Vec::new());
    bare.itunes_ext = None;
    bare.language = None;
    let podcast = bare.into_podcast(created_at).expect("should convert");
    assert_eq!(podcast.language, "");
    assert_eq!(podcast.podcast_type, PodcastType::Episodic);
    assert!(!podcast.explicit);
    assert!(podcast.episodes.is_empty());
}

#[test]
fn podcast_comes_back_from_its_feed() {
    let podcast = podcast_example();
    let read = Channel::from_podcast(&podcast)
        .into_podcast(podcast.created_at)
        .expect("should convert");
    assert_eq!(read.title, podcast.title);
    assert_eq!(read.link.as_str(), podcast.link.as_str());
    assert_eq!(read.episodes.len(), 1);
    let (was, is) = (&podcast.episodes[0], &read.episodes[0]);
    assert_eq!(is.id, was.id);
    assert_eq!(is.title, was.title);
    assert_eq!(is.audio_url.as_str(), was.audio_url.as_str());
    assert_eq!(is.audio_file_size, was.audio_file_size);
    assert_eq!(is.season, was.season);
    assert_eq!(is.number, was.number);
    assert_eq!(is.episode_type, was.episode_type);
    assert_eq!(is.published_at.unix_seconds(), was.published_at.unix_seconds());
    assert_eq!(is.get_file_stem(), was.get_file_stem());
}

#[test]
fn duration_is_read_in_three_forms() {
    assert_eq!(parse_duration("90"), Some(90));
    assert_eq!(parse_duration("01:30"), Some(90));
    assert_eq!(parse_duration("1:02:03"), Some(3_723));
    assert_eq!(parse_duration("0:00:00"), Some(0));
    assert_eq!(parse_duration(""), None);
    assert_eq!(parse_duration("1:"), None);
    assert_eq!(parse_duration(":30"), None);
    assert_eq!(parse_duration("1:2:3:4"), None);
    assert_eq!(parse_duration("1.5"), None);
    assert_eq!(parse_duration("18446744073709551615"), Some(u64::MAX));
    assert_eq!(parse_duration("1:18446744073709551615"), None);
    assert_eq!(parse_duration("307445734561825860:15"), Some(u64::MAX));
    assert_eq!(parse_duration("307445734561825860:16"), None);
}

#[test]
fn decimal_is_read_from_digits_only() {
    assert_eq!(parse_decimal("0"), Some(0));
    assert_eq!(parse_decimal("007"), Some(7));
    assert_eq!(parse_decimal("18446744073709551615"), Some(u64::MAX));
    assert_eq!(parse_decimal("18446744073709551616"), None);
    assert_eq!(parse_decimal("99999999999999999999999"), None);
    assert_eq!(parse_decimal(""), None);
    assert_eq!(parse_decimal("+1"), None);
    assert_eq!(parse_decimal("-1"), None);
    assert_eq!(parse_decimal("1 "), None);
    assert_eq!(parse_decimal("1a"), None);
}

#[test]
fn split_keeps_empty_parts() {
    let parts = |text: &str| -> Vec<String> {
        split_chars(&chars_of(text), ':')
            .into_iter()
            .map(|part| part.into_iter().collect())
            .collect()
    };
    assert_eq!(parts("a:b:c"), vec!["a", "b", "c"]);
    assert_eq!(parts("abc"), vec!["abc"]);
    assert_eq!(parts(""), vec![""]);
    assert_eq!(parts(":"), vec!["", ""]);
    assert_eq!(parts("a::b:"), vec!["a", "", "b", ""]);
}
