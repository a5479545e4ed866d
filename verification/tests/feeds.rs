use pura::cover::{CoverCommand, CoverError, CoverOptions, BANNER_HEIGHT, BANNER_WIDTH, COVER_SIZE};
use pura::feeds::{group_by_season, group_by_year, FeedsCommand};
use pura::schema::episode::{Episode, EpisodeType};
use pura::schema::podcast::{Podcast, PodcastType};
use pura::services::http::{HttpClient, HttpError};
use pura::services::ipinfo::{IpInfo, IpInfoProvider};
use pura::services::options::AppOptions;
use pura::services::paths::{AudioLocation, PathProvider};
use pura::services::podcasts::PodcastProvider;
use pura::timestamp::Timestamp;
use pura::utils::resize::{Encoder, ImageError, ImageFormat, Resize};
use pura::utils::validation::ValidationError;
use pura::web::Url;

const Y2018: i64 = 1_514_764_800;
const Y2019: i64 = 1_546_300_800;
const Y2020: i64 = 1_577_836_800;

fn episode(id: &str, season: Option<usize>, seconds: i64) -> Episode {
    Episode {
        id: id.to_owned(),
        title: format!("Episode {id}"),
        description: String::new(),
        image_url: None,
        audio_url: Url::parse(&format!("https://example.com/audio/{id}.mp3")).expect("valid"),
        episode_type: EpisodeType::Full,
        season,
        number: None,
        audio_file_size: 1024,
        audio_content_type: "audio/mpeg".to_owned(),
        published_at: Timestamp::new(seconds, 0, 0).expect("should be valid"),
        duration: None,
        explicit: false,
    }
}

fn episodes() -> Vec<Episode> {
    vec![
        episode("a", Some(2), Y2019),
        episode("b", Some(1), Y2018),
        episode("c", None, Y2018),
        episode("d", Some(2), Y2020),
        episode("e", Some(1), Y2018),
        episode("f", Some(2), Y2019),
    ]
}

fn podcast() -> Podcast {
    Podcast {
        id: "irl".to_owned(),
        guid: "guid".to_owned(),
        title: "IRL".to_owned(),
        description: String::new(),
        image_url: Some(Url::parse("https://example.com/art/show.png").expect("valid")),
        language: "en-us".to_owned(),
        category: None,
        sub_category: None,
        explicit: false,
        author: None,
        link: Url::parse("https://example.com/").expect("valid"),
        podcast_type: PodcastType::Episodic,
        copyright: None,
        created_at: Timestamp::new(0, 0, 0).expect("valid"),
        episodes: episodes(),
    }
}

fn ids(episodes: &[Episode]) -> Vec<&str> {
    episodes.iter().map(|e| e.id.as_str()).collect()
}

#[test]
fn seasons_come_in_the_order_in_which_they_are_seen() {
    let groups = group_by_season(episodes());
    let seasons: Vec<Option<usize>> = groups.iter().map(|g| g.season).collect();
    assert_eq!(seasons, vec![Some(2), Some(1), None]);
    assert_eq!(ids(&groups[0].episodes), vec!["a", "d", "f"]);
    assert_eq!(ids(&groups[1].episodes), vec!["b", "e"]);
    assert_eq!(ids(&groups[2].episodes), vec!["c"]);
    assert!(group_by_season(Vec::new()).is_empty());
}

#[test]
fn years_come_in_the_order_in_which_they_are_seen() {
    let groups = group_by_year(episodes());
    let years: Vec<i32> = groups.iter().map(|g| g.year).collect();
    assert_eq!(years, vec![2019, 2018, 2020]);
    assert_eq!(ids(&groups[0].episodes), vec!["a", "f"]);
    assert_eq!(ids(&groups[1].episodes), vec!["b", "c", "e"]);
    assert_eq!(ids(&groups[2].episodes), vec!["d"]);
}

#[test]
fn feeds_command() {
    // Arrange
    let command = FeedsCommand::new(PodcastProvider::default(), PathProvider::default());
    let podcast = podcast();

    // Act
    let feeds = command.save_feeds(&podcast);

    // Assert
    let paths: Vec<&str> = feeds.iter().map(|f| f.path.as_str()).collect();
    assert_eq!(
        paths,
        vec![
            "output/irl/feed.xml",
            "output/irl/S02/feed.xml",
            "output/irl/S02/2019/feed.xml",
            "output/irl/S02/2020/feed.xml",
            "output/irl/S01/feed.xml",
            "output/irl/S01/2018/feed.xml",
            "output/irl/feed.xml",
            "output/irl/S00/2018/feed.xml",
        ]
    );
    assert_eq!(ids(&feeds[0].episodes), vec!["a", "b", "c", "d", "e", "f"]);
    assert_eq!(ids(&feeds[1].episodes), vec!["a", "d", "f"]);
    assert_eq!(ids(&feeds[2].episodes), vec!["a", "f"]);
    assert_eq!(ids(&feeds[3].episodes), vec!["d"]);
    assert_eq!(ids(&feeds[4].episodes), vec!["b", "e"]);
    assert_eq!(ids(&feeds[5].episodes), vec!["b", "e"]);
    assert_eq!(ids(&feeds[7].episodes), vec!["c"]);
    assert_eq!((feeds[3].season, feeds[3].year), (Some(2), Some(2020)));
    assert_eq!((feeds[4].season, feeds[4].year), (Some(1), None));
}

#[test]
fn feed_of_a_podcast_without_episodes_is_the_whole_one() {
    let command = FeedsCommand::new(PodcastProvider::default(), PathProvider::default());
    let mut podcast = podcast();
    podcast.episodes.clear();
    let feeds = command.save_feeds(&podcast);
    assert_eq!(feeds.len(), 1);
    assert_eq!(feeds[0].path, "output/irl/feed.xml");
}

#[test]
fn enclosure_is_that_of_the_episode_with_the_guid() {
    let command = FeedsCommand::new(PodcastProvider::default(), PathProvider::default());
    let podcast = podcast();
    match command.replace_enclosure(&podcast, "d", Some("/srv")) {
        Some(AudioLocation::File(path)) => {
            assert_eq!(path, "/srv/output/irl/S02/2020/2020-01-01 ____ Episode d.mp3")
        }
        other => panic!("unexpected location: {other:?}"),
    }
    assert!(command.replace_enclosure(&podcast, "missing", Some("/srv")).is_none());
    assert!(command.replace_enclosure(&podcast, "d", None).is_none());
}

#[test]
fn cover_command() {
    // Arrange
    let command = CoverCommand::new(
        PodcastProvider::default(),
        HttpClient::new("cache/http".to_owned()),
        PathProvider::default(),
    );
    let options = CoverOptions { podcast_id: "irl".to_owned() };

    // Act
    let result = command.execute(&options, &podcast());

    // Assert
    let plan = result.expect("should have a plan");
    assert_eq!(plan.source.as_str(), "https://example.com/art/show.png");
    assert_eq!(plan.banner.path, "output/irl/banner.jpg");
    assert_eq!((plan.banner.width, plan.banner.height), (BANNER_WIDTH, BANNER_HEIGHT));
    assert_eq!((BANNER_WIDTH, BANNER_HEIGHT), (960, 540));
    assert_eq!(plan.cover.path, "output/irl/cover.jpg");
    assert_eq!((plan.cover.width, plan.cover.height), (COVER_SIZE, COVER_SIZE));
    assert_eq!(COVER_SIZE, 720);
}

#[test]
fn podcast_without_artwork_has_no_cover() {
    let command = CoverCommand::new(
        PodcastProvider::default(),
        HttpClient::new("cache/http".to_owned()),
        PathProvider::default(),
    );
    let mut podcast = podcast();
    podcast.image_url = None;
    let options = CoverOptions { podcast_id: "irl".to_owned() };
    assert!(matches!(command.execute(&options, &podcast), Err(CoverError::NoImage)));
}

fn info() -> IpInfo {
    IpInfo {
        ip: "198.51.100.7".to_owned(),
        hostname: "host.example.net".to_owned(),
        city: "Amsterdam".to_owned(),
        region: "North Holland".to_owned(),
        country: "NL".to_owned(),
        loc: "52.3740,4.8897".to_owned(),
        org: "AS0 Example".to_owned(),
        postal: "1012".to_owned(),
        timezone: "Europe/Amsterdam".to_owned(),
    }
}

#[test]
fn external_address_is_written_out() {
    assert_eq!(info().message(), "198.51.100.7 (Amsterdam, North Holland, NL)");
}

#[test]
fn validate_none() {
    // Arrange
    let options = AppOptions { expect_ip: None, expect_country: None, ..AppOptions::default() };
    let ipinfo = IpInfoProvider::new(options, HttpClient::new("cache/http".to_owned()));

    // Act
    let result = ipinfo.validate(Ok(info()));

    // Assert
    assert!(result.is_ok());
}

#[test]
fn validate_invalid() {
    // Arrange
    let options = AppOptions {
        expect_ip: Some("203.0.113.1".to_owned()),
        expect_country: Some("INVALID".to_owned()),
        ..AppOptions::default()
    };
    let ipinfo = IpInfoProvider::new(options, HttpClient::new("cache/http".to_owned()));

    // Act
    let result = ipinfo.validate(Ok(info()));

    // Assert
    let Err(errors) = result else {
        assert!(false);
        return;
    };
    assert_eq!(errors.len(), 2);
    assert!(matches!(
        &errors[0],
        ValidationError::Mismatch(name, expected, actual)
            if name == "IP address" && expected == "203.0.113.1" && actual == "198.51.100.7"
    ));
    assert!(matches!(
        &errors[1],
        ValidationError::Mismatch(name, expected, actual)
            if name == "Geolocated country" && expected == "INVALID" && actual == "NL"
    ));
}

#[test]
fn validate_reports_what_differs() {
    let options = AppOptions {
        expect_ip: Some("198.51.100.7".to_owned()),
        expect_country: Some("DE".to_owned()),
        ..AppOptions::default()
    };
    let ipinfo = IpInfoProvider::new(options, HttpClient::new("cache/http".to_owned()));
    let errors = ipinfo.validate(Ok(info())).expect_err("country differs");
    assert_eq!(errors.len(), 1);
    let url = Url::parse("https://ipinfo.io").expect("valid");
    let failed = ipinfo.validate(Err(HttpError::Response(url, 429))).expect_err("no answer");
    assert_eq!(failed.len(), 1);
    assert!(matches!(&failed[0], ValidationError::Http(HttpError::Response(_, 429))));
}

#[test]
fn resize_jpeg() {
    let formats = vec![
        (ImageFormat::Jpeg, Encoder::Jpeg),
        (ImageFormat::Png, Encoder::Png),
        (ImageFormat::WebP, Encoder::WebPLossless),
        (ImageFormat::Gif, Encoder::Gif),
    ];
    for (format, expected) in formats {
        let resize = Resize::new(Some(format)).expect("format is known");
        assert_eq!(resize.to_bytes().expect("format has an encoder"), expected);
    }
}

#[test]
fn image_without_a_format_or_an_encoder_is_an_error() {
    assert!(matches!(Resize::new(None), Err(ImageError::UnknownFormat)));
    let tiff = Resize::new(Some(ImageFormat::Other("image/tiff".to_owned()))).expect("known");
    assert!(matches!(
        tiff.to_bytes(),
        Err(ImageError::UnsupportedFormat(ImageFormat::Other(mime))) if mime == "image/tiff"
    ));
}
