use pura::path::replace_extension;
use pura::schema::episode::{Episode, EpisodeType};
use pura::schema::podcast::{Podcast, PodcastType};
use pura::timestamp::Timestamp;
use pura::utils::resize::{ImageFormat, PictureMime, Resize};
use pura::utils::tag::Tag;
use pura::web::Url;

fn episode() -> Episode {
    Episode {
        id: "id".to_string(),
        title: "  Lorem ipsum?  ".to_string(),
        description: "Words about the episode".to_string(),
        image_url: None,
        audio_url: Url::parse("https://example.com/a.mp3").expect("URL should be valid"),
        episode_type: EpisodeType::Full,
        season: Some(2),
        number: Some(3),
        audio_file_size: 1024,
        audio_content_type: "audio/mpeg".to_owned(),
        published_at: Timestamp::new(1_561_964_400, 0, 0).expect("should be valid"),
        duration: None,
        explicit: false,
    }
}

fn podcast() -> Podcast {
    Podcast {
        id: "irl".to_owned(),
        guid: "guid".to_owned(),
        title: "IRL".to_owned(),
        description: String::new(),
        image_url: None,
        language: "en-us".to_owned(),
        category: None,
        sub_category: None,
        explicit: false,
        author: None,
        link: Url::parse("https://example.com/").expect("valid"),
        podcast_type: PodcastType::Episodic,
        copyright: None,
        created_at: Timestamp::new(0, 0, 0).expect("valid"),
        episodes: Vec::new(),
    }
}

#[test]
fn tag_is_made_of_the_episode_and_the_podcast() {
    let tag = Tag::create(&podcast(), &episode());
    assert_eq!(tag.title, "Lorem ipsum?");
    assert_eq!(tag.artist, "IRL");
    assert_eq!(tag.album, Some("Season 2".to_owned()));
    assert_eq!(tag.disk, 2);
    assert_eq!(tag.year, 2019);
    assert_eq!(tag.track, Some(3));
    assert_eq!(tag.comment, "Words about the episode");
}

#[test]
fn tag_without_season_and_number() {
    let mut episode = episode();
    episode.season = None;
    episode.number = None;
    let tag = Tag::create(&podcast(), &episode);
    assert_eq!(tag.album, None);
    assert_eq!(tag.disk, 0);
    assert_eq!(tag.track, None);
}

#[test]
fn tag_numbers_are_cut_to_32_bits() {
    let mut episode = episode();
    episode.season = Some(usize::MAX);
    episode.number = Some(usize::MAX - 1);
    episode.published_at = Timestamp::new(-62_167_219_201, 0, 0).expect("valid");
    let tag = Tag::create(&podcast(), &episode);
    assert_eq!(tag.disk, u32::MAX);
    assert_eq!(tag.track, Some(u32::MAX - 1));
    assert_eq!(tag.year, u32::MAX);
    assert_eq!(tag.album, Some(format!("Season {}", usize::MAX)));
}

#[test]
fn picture_has_the_mime_type_of_its_format() {
    let of = |format: ImageFormat| Resize::new(Some(format)).expect("known").to_picture();
    assert!(matches!(of(ImageFormat::Png), PictureMime::Png));
    assert!(matches!(of(ImageFormat::Jpeg), PictureMime::Jpeg));
    assert!(matches!(of(ImageFormat::Gif), PictureMime::Gif));
    assert!(matches!(of(ImageFormat::WebP), PictureMime::FromText(text) if text == "image/webp"));
    assert!(matches!(
        of(ImageFormat::Other("image/tiff".to_owned())),
        PictureMime::FromText(text) if text == "image/tiff"
    ));
}

#[test]
fn image_file_has_the_extension_of_its_format() {
    let of = |format: ImageFormat| Resize::new(Some(format)).expect("known").to_file("output/irl/cover.jpg");
    assert_eq!(of(ImageFormat::Png), Some("output/irl/cover.png".to_owned()));
    assert_eq!(of(ImageFormat::Jpeg), Some("output/irl/cover.jpg".to_owned()));
    assert_eq!(of(ImageFormat::Gif), Some("output/irl/cover.gif".to_owned()));
    assert_eq!(of(ImageFormat::WebP), Some("output/irl/cover.webp".to_owned()));
    assert_eq!(of(ImageFormat::Other("image/tiff".to_owned())), None);
    assert_eq!(
        Resize::new(Some(ImageFormat::Png)).expect("known").format().name(),
        "Png"
    );
}

#[test]
fn extension_is_replaced_in_the_file_name_only() {
    assert_eq!(replace_extension("a/b.jpg", "png"), "a/b.png");
    assert_eq!(replace_extension("a/b", "png"), "a/b.png");
    assert_eq!(replace_extension("a.d/b", "png"), "a.d/b.png");
    assert_eq!(replace_extension("a/b.tar.gz", "xz"), "a/b.tar.xz");
    assert_eq!(replace_extension("a/.hidden", "png"), "a/.hidden.png");
    assert_eq!(replace_extension("b.", "png"), "b.png");
    assert_eq!(replace_extension("", "png"), ".png");
}
