use pura::schema::episode::{Episode, EpisodeType};
use pura::services::options::AppOptions;
use pura::services::paths::{AudioLocation, DirectoryStatus, PathProvider};
use pura::services::podcasts::{DatabaseError, PodcastProvider};
use pura::services::provider::{ServiceError, ServiceProvider};
use pura::timestamp::Timestamp;
use pura::utils::validation::{Validate, ValidationError};
use pura::web::Url;
use std::path::PathBuf;

fn episode() -> Episode {
    Episode {
        id: "550e8400-e29b-41d4-a716-446655440000".to_string(),
        title: "Lorem ipsum dolor sit amet".to_string(),
        description: "Aenean sit amet sem quis velit viverra vestibulum.".to_string(),
        image_url: Some(Url::parse("https://example.com/image.jpg").expect("URL should be valid")),
        audio_url: Url::parse("https://example.com/season-1/episode-1.mp3")
            .expect("URL should be valid"),
        episode_type: EpisodeType::default(),
        season: Some(2),
        number: Some(3),
        audio_file_size: 1024,
        audio_content_type: "audio/mpeg".to_owned(),
        published_at: Timestamp::new(0, 0, 0).expect("epoch should be valid"),
        duration: None,
        explicit: false,
    }
}

fn all_exist() -> DirectoryStatus {
    DirectoryStatus { cache: true, http: true, podcasts: true, output: true }
}

#[test]
fn validate() {
    // Arrange
    let paths = PathProvider::default();

    // Act
    let result = paths.validate(&all_exist());

    // Assert
    assert!(result.is_ok());
}

#[test]
fn get_output_path_for_rss() {
    // Arrange
    let paths = PathProvider::default();

    // Act
    // Assert
    assert_eq!(
        PathBuf::from(paths.get_output_path_for_rss("abc", None, None)),
        PathBuf::from("output/abc/feed.xml")
    );
    assert_eq!(
        PathBuf::from(paths.get_output_path_for_rss("abc", Some(1), None)),
        PathBuf::from("output/abc/S01/feed.xml")
    );
    assert_eq!(
        PathBuf::from(paths.get_output_path_for_rss("abc", Some(1), Some(1234))),
        PathBuf::from("output/abc/S01/1234/feed.xml")
    );
    assert_eq!(
        PathBuf::from(paths.get_output_path_for_rss("abc", None, Some(1234))),
        PathBuf::from("output/abc/S00/1234/feed.xml")
    );
}

#[test]
fn rss_paths_as_text() {
    let paths = PathProvider::default();
    assert_eq!(paths.get_output_path_for_rss("abc", None, None), "output/abc/feed.xml");
    assert_eq!(paths.get_output_path_for_rss("abc", Some(1), Some(1234)), "output/abc/S01/1234/feed.xml");
    assert_eq!(paths.get_output_path_for_rss("abc", None, Some(-5)), "output/abc/S00/-5/feed.xml");
}

#[test]
fn directories_default_to_cache_and_output() {
    let paths = PathProvider::default();
    assert_eq!(paths.get_cache_dir(), "cache");
    assert_eq!(paths.get_http_dir(), "cache/http");
    assert_eq!(paths.get_podcast_dir(), "cache/podcasts");
    assert_eq!(paths.get_output_dir(), "output");
}

#[test]
fn directories_follow_the_options() {
    let options = AppOptions {
        cache_dir: Some("/var/cache/pods".to_owned()),
        output_dir: Some("/srv/pods/".to_owned()),
        ..AppOptions::default()
    };
    let paths = PathProvider::new(options);
    assert_eq!(paths.get_http_dir(), "/var/cache/pods/http");
    assert_eq!(paths.get_podcast_dir(), "/var/cache/pods/podcasts");
    assert_eq!(paths.get_output_path_for_cover("irl"), "/srv/pods/irl/cover.jpg");
    assert_eq!(paths.get_output_path_for_banner("irl"), "/srv/pods/irl/banner.jpg");
}

#[test]
fn audio_lies_below_podcast_season_and_year() {
    let paths = PathProvider::default();
    let episode = episode();
    assert_eq!(
        paths.get_sub_path_for_audio("irl", &episode),
        "irl/S02/1970/1970-01-01 0003 Lorem ipsum dolor sit amet.mp3"
    );
    assert_eq!(
        paths.get_output_path_for_audio("irl", &episode),
        "output/irl/S02/1970/1970-01-01 0003 Lorem ipsum dolor sit amet.mp3"
    );
}

#[test]
fn audio_takes_the_extension_of_its_url_or_mp3() {
    let paths = PathProvider::default();
    let mut episode = episode();
    episode.audio_url = Url::parse("https://example.com/audio/episode.m4a?x=1").expect("valid");
    assert_eq!(
        paths.get_sub_path_for_audio("irl", &episode),
        "irl/S02/1970/1970-01-01 0003 Lorem ipsum dolor sit amet.m4a"
    );
    episode.audio_url = Url::parse("https://example.com/audio/episode").expect("valid");
    episode.season = None;
    episode.number = None;
    assert_eq!(
        paths.get_sub_path_for_audio("irl", &episode),
        "irl/S00/1970/1970-01-01 ____ Lorem ipsum dolor sit amet.mp3"
    );
}

#[test]
fn audio_url_is_below_the_server_base() {
    let options = AppOptions {
        server_base: Some(Url::parse("https://pods.example.com/files/").expect("valid")),
        ..AppOptions::default()
    };
    let paths = PathProvider::new(options);
    let location = paths.get_url_for_audio("irl", &episode(), Some("/home/user"));
    match location {
        Some(AudioLocation::Url(url)) => assert_eq!(
            url.as_str(),
            "https://pods.example.com/files/irl/S02/1970/1970-01-01%200003%20Lorem%20ipsum%20dolor%20sit%20amet.mp3"
        ),
        other => panic!("unexpected location: {other:?}"),
    }
}

#[test]
fn audio_url_is_a_file_without_a_server_base() {
    let paths = PathProvider::default();
    let location = paths.get_url_for_audio("irl", &episode(), Some("/home/user"));
    match location {
        Some(AudioLocation::File(path)) => assert_eq!(
            path,
            "/home/user/output/irl/S02/1970/1970-01-01 0003 Lorem ipsum dolor sit amet.mp3"
        ),
        other => panic!("unexpected location: {other:?}"),
    }
    assert!(paths.get_url_for_audio("irl", &episode(), None).is_none());
}

#[test]
fn validate_names_each_missing_directory_in_order() {
    let paths = PathProvider::default();
    let status = DirectoryStatus { cache: true, http: false, podcasts: true, output: false };
    let errors = paths.validate(&status).expect_err("should fail");
    assert_eq!(errors.len(), 2);
    match &errors[0] {
        ValidationError::DirectoryNotExist(name, path) => {
            assert_eq!(name, "HTTP cache directory");
            assert_eq!(path, "cache/http");
        }
        other => panic!("unexpected error: {other:?}"),
    }
    match &errors[1] {
        ValidationError::DirectoryNotExist(name, path) => {
            assert_eq!(name, "Output directory");
            assert_eq!(path, "output");
        }
        other => panic!("unexpected error: {other:?}"),
    }
}

#[test]
fn validate_asks_for_a_path() {
    let options = AppOptions { output_dir: Some(String::new()), ..AppOptions::default() };
    let errors = options.validate(&all_exist()).expect_err("should fail");
    assert_eq!(errors.len(), 1);
    assert!(matches!(&errors[0], ValidationError::RequiredPath(name) if name == "Output directory"));
}

#[test]
fn directory_check_tells_empty_from_missing() {
    assert!(Validate::directory("Output directory", "output", true).is_ok());
    assert!(matches!(
        Validate::directory("Output directory", "", true),
        Err(ValidationError::RequiredPath(name)) if name == "Output directory"
    ));
    assert!(matches!(
        Validate::directory("Output directory", "output", false),
        Err(ValidationError::DirectoryNotExist(name, path)) if name == "Output directory" && path == "output"
    ));
}

#[test]
fn expect_reports_a_mismatch() {
    assert!(Validate::expect("IP address", "1.2.3.4", "1.2.3.4").is_ok());
    assert!(matches!(
        Validate::expect("IP address", "1.2.3.4", "4.3.2.1"),
        Err(ValidationError::Mismatch(name, expected, actual))
            if name == "IP address" && expected == "1.2.3.4" && actual == "4.3.2.1"
    ));
}

#[test]
fn records_lie_below_their_directory() {
    let podcasts = PodcastProvider::default();
    assert_eq!(podcasts.get_path("irl"), "cache/podcasts/irl.yml");
    assert_eq!(podcasts.get("irl", true).expect("should be found"), "cache/podcasts/irl.yml");
    assert!(matches!(podcasts.get("irl", false), Err(DatabaseError::NotFound(id)) if id == "irl"));
    let other = PodcastProvider::new("/data/records".to_owned());
    assert_eq!(other.get_path("a.b"), "/data/records/a.b.yml");
}

#[test]
fn services_are_made_from_valid_options() {
    let services = ServiceProvider::create(AppOptions::default(), &all_exist())
        .expect("should be made");
    assert_eq!(services.http.dir(), "cache/http");
    assert_eq!(services.podcasts.get_path("x"), "cache/podcasts/x.yml");
    assert_eq!(services.paths.get_output_dir(), "output");
}

#[test]
fn services_are_not_made_from_invalid_options() {
    let status = DirectoryStatus { cache: false, http: false, podcasts: false, output: false };
    match ServiceProvider::create(AppOptions::default(), &status) {
        Err(ServiceError::ValidateConfig(errors)) => assert_eq!(errors.len(), 4),
        other => panic!("unexpected result: {other:?}"),
    }
}
