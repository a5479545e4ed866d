use pura::download::{DownloadCommand, Event, Probed, ProcessError, Summary, Target, Work, IMAGE_SIZE};
use pura::schema::episode::{Episode, EpisodeType};
use pura::schema::podcast::{Podcast, PodcastType};
use pura::services::http::{HttpClient, HttpError};
use pura::services::paths::PathProvider;
use pura::services::podcasts::PodcastProvider;
use pura::timestamp::Timestamp;
use pura::utils::resize::ImageError;
use pura::web::Url;

fn episode(id: &str, number: usize, seconds: i64) -> Episode {
    Episode {
        id: id.to_owned(),
        title: format!("Episode {number}"),
        description: String::new(),
        image_url: Some(Url::parse("https://example.com/art/image.jpg").expect("valid")),
        audio_url: Url::parse(&format!("https://example.com/audio/{id}.mp3")).expect("valid"),
        episode_type: EpisodeType::Full,
        season: Some(1),
        number: Some(number),
        audio_file_size: 1024,
        audio_content_type: "audio/mpeg".to_owned(),
        published_at: Timestamp::new(seconds, 0, 0).expect("should be valid"),
        duration: None,
        explicit: false,
    }
}

fn podcast() -> Podcast {
    Podcast {
        id: "irl".to_owned(),
        guid: "guid".to_owned(),
        title: "IRL".to_owned(),
        description: String::new(),
        image_url: None,
        language: "en-us".to_owned(),
        category: None,
        sub_category: None,
        explicit: false,
        author: None,
        link: Url::parse("https://example.com/").expect("valid"),
        podcast_type: PodcastType::Episodic,
        copyright: None,
        created_at: Timestamp::new(0, 0, 0).expect("valid"),
        episodes: vec![
            episode("a", 1, 1_514_764_800),
            episode("b", 2, 1_546_300_800),
            episode("c", 3, 1_561_964_400),
            episode("d", 4, 1_577_836_800),
        ],
    }
}

fn command() -> DownloadCommand {
    DownloadCommand::new(
        PathProvider::default(),
        HttpClient::new("cache/http".to_owned()),
        PodcastProvider::default(),
    )
}

#[test]
fn download_command() {
    // Arrange
    let command = command();
    let results = vec![
        Ok(episode("a", 1, 0)),
        Err(ProcessError::Task("1970-01-01 0002 Episode 2".to_owned(), "cancelled".to_owned())),
        Ok(episode("c", 3, 0)),
    ];

    // Act
    let summary = command.execute(results);

    // Assert
    assert_eq!(summary, Summary { downloaded: 2, skipped: 1 });
}

#[test]
fn candidates_are_the_episodes_of_the_year() {
    let command = command();
    let podcast = podcast();
    let all = command.candidates(&podcast, None);
    assert_eq!(all.len(), 4);
    let of_2019 = command.candidates(&podcast, Some(2019));
    let ids: Vec<&str> = of_2019.iter().map(|t| t.episode.id.as_str()).collect();
    assert_eq!(ids, vec!["b", "c"]);
    assert_eq!(of_2019[0].path, "output/irl/S01/2019/2019-01-01 0002 Episode 2.mp3");
    assert_eq!(of_2019[1].path, "output/irl/S01/2019/2019-07-01 0003 Episode 3.mp3");
    assert!(command.candidates(&podcast, Some(1999)).is_empty());
}

#[test]
fn episodes_in_the_archive_are_not_processed() {
    let command = command();
    let podcast = podcast();
    let probed: Vec<Probed> = command
        .candidates(&podcast, None)
        .into_iter()
        .map(|target| {
            let exists = target.episode.id == "b" || target.episode.id == "d";
            Probed { target, exists }
        })
        .collect();
    let pending = command.process_episodes(probed);
    let ids: Vec<&str> = pending.iter().map(|t| t.episode.id.as_str()).collect();
    assert_eq!(ids, vec!["a", "c"]);
}

#[test]
fn second_run_fetches_no_audio() {
    let command = command();
    let podcast = podcast();
    let mut archive: Vec<String> = Vec::new();
    let mut fetched = Vec::new();
    for _run in 0..2 {
        let probed: Vec<Probed> = command
            .candidates(&podcast, None)
            .into_iter()
            .map(|target| {
                let exists = archive.contains(&target.path);
                Probed { target, exists }
            })
            .collect();
        let pending: Vec<Target> = command.process_episodes(probed);
        let mut count = 0;
        for target in pending {
            if let Work::FetchAudio(_, _) = command.process_episode("irl", &target.episode, Event::Start) {
                count += 1;
            }
            archive.push(target.path);
        }
        fetched.push(count);
    }
    assert_eq!(fetched, vec![4, 0]);
}

#[test]
fn process_episode() {
    // Arrange
    let command = command();
    let episode = episode("b", 2, 1_546_300_800);
    let destination = "output/irl/S01/2019/2019-01-01 0002 Episode 2.mp3";

    // Act
    // Assert
    match command.process_episode("irl", &episode, Event::Start) {
        Work::FetchAudio(url, extension) => {
            assert_eq!(url.as_str(), "https://example.com/audio/b.mp3");
            assert_eq!(extension, "mp3");
        }
        other => panic!("unexpected work: {other:?}"),
    }
    match command.process_episode("irl", &episode, Event::AudioFetched("cache/http/example.com/audio/b.mp3.mp3".to_owned())) {
        Work::Copy(source, target) => {
            assert_eq!(source, "cache/http/example.com/audio/b.mp3.mp3");
            assert_eq!(target, destination);
        }
        other => panic!("unexpected work: {other:?}"),
    }
    match command.process_episode("irl", &episode, Event::Copied) {
        Work::FetchImage(url, extension) => {
            assert_eq!(url.as_str(), "https://example.com/art/image.jpg");
            assert_eq!(extension, Some("jpg".to_owned()));
        }
        other => panic!("unexpected work: {other:?}"),
    }
    match command.process_episode("irl", &episode, Event::ImageFetched("cache/image.jpg".to_owned())) {
        Work::Resize(path, width, height) => {
            assert_eq!(path, "cache/image.jpg");
            assert_eq!((width, height), (IMAGE_SIZE, IMAGE_SIZE));
            assert_eq!(IMAGE_SIZE, 720);
        }
        other => panic!("unexpected work: {other:?}"),
    }
    assert!(matches!(
        command.process_episode("irl", &episode, Event::Resized),
        Work::Tag(path) if path == destination
    ));
    assert!(matches!(command.process_episode("irl", &episode, Event::Tagged), Work::Done));
}

#[test]
fn episode_without_artwork_is_tagged_after_the_copy() {
    let command = command();
    let mut episode = episode("b", 2, 1_546_300_800);
    episode.image_url = None;
    assert!(matches!(
        command.process_episode("irl", &episode, Event::Copied),
        Work::Tag(path) if path == "output/irl/S01/2019/2019-01-01 0002 Episode 2.mp3"
    ));
    assert!(matches!(command.download_image("irl", &episode), Work::Tag(_)));
}

#[test]
fn failures_carry_the_file_stem() {
    let command = command();
    let episode = episode("b", 2, 1_546_300_800);
    let stem = "2019-01-01 0002 Episode 2";
    let url = Url::parse("https://example.com/audio/b.mp3").expect("valid");
    assert!(matches!(
        command.process_episode("irl", &episode, Event::AudioFailed(HttpError::Response(url.duplicate(), 404))),
        Work::Failed(ProcessError::DownloadAudio(s, HttpError::Response(_, 404))) if s == stem
    ));
    assert!(matches!(
        command.process_episode("irl", &episode, Event::DirectoryFailed("denied".to_owned())),
        Work::Failed(ProcessError::IO(s, path, cause))
            if s == stem && path == "output/irl/S01/2019" && cause == "denied"
    ));
    assert!(matches!(
        command.process_episode("irl", &episode, Event::CopyFailed("cache/b.mp3".to_owned(), "full".to_owned())),
        Work::Failed(ProcessError::IO(s, path, cause)) if s == stem && path == "cache/b.mp3" && cause == "full"
    ));
    assert!(matches!(
        command.process_episode("irl", &episode, Event::ImageFailed(HttpError::NoContentType(url))),
        Work::Failed(ProcessError::DownloadImage(s, HttpError::NoContentType(_))) if s == stem
    ));
    assert!(matches!(
        command.process_episode("irl", &episode, Event::TaskFailed("cancelled".to_owned())),
        Work::Failed(ProcessError::Task(s, cause)) if s == stem && cause == "cancelled"
    ));
    assert!(matches!(
        command.process_episode("irl", &episode, Event::ResizeFailed(ImageError::UnknownFormat)),
        Work::Failed(ProcessError::ResizeImage(s, ImageError::UnknownFormat)) if s == stem
    ));
    assert!(matches!(
        command.process_episode("irl", &episode, Event::TagFailed("bad frame".to_owned())),
        Work::Failed(ProcessError::Tag(s, path, cause))
            if s == stem && path == "output/irl/S01/2019/2019-01-01 0002 Episode 2.mp3" && cause == "bad frame"
    ));
}
