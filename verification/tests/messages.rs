use pura::cover::CoverError;
use pura::download::{DownloadError, ProcessError};
use pura::feeds::FeedsError;
use pura::schema::feed::PodcastConvertError;
use pura::scrape::client::ClientError;
use pura::scrape::scrape::{ScrapeError, ScrapeRssError};
use pura::scrape::scrape_simplecast::ScrapeSimplecastError;
use pura::services::http::{canonical_reason, HttpError};
use pura::services::podcasts::DatabaseError;
use pura::services::provider::ServiceError;
use pura::utils::resize::{ImageError, ImageFormat};
use pura::utils::validation::ValidationError;
use pura::web::Url;

fn url() -> Url {
    Url::parse("https://example.com/a").expect("valid")
}

#[test]
fn http_errors_are_written_out() {
    assert_eq!(
        HttpError::Response(url(), 404).message(),
        "Unexpected response status: 404 Not Found\nURL: https://example.com/a"
    );
    assert_eq!(
        HttpError::Response(url(), 799).message(),
        "Unexpected response status: 799 \nURL: https://example.com/a"
    );
    assert_eq!(
        HttpError::Request(url(), "timed out".to_owned()).message(),
        "A request error occurred.\nURL:https://example.com/a\ntimed out"
    );
    assert_eq!(
        HttpError::Io("cache/a".to_owned(), "denied".to_owned()).message(),
        "An I/O error occurred.\nPath: cache/a\ndenied"
    );
    assert_eq!(
        HttpError::ResponseIo(url(), "reset".to_owned()).message(),
        "A response I/O error occurred.\nURL: https://example.com/a\nreset"
    );
    assert_eq!(
        HttpError::InvalidJson("cache/a.json".to_owned(), "eof".to_owned()).message(),
        "A deserialization error occurred.\nPath: cache/a.json\neof"
    );
    assert_eq!(
        HttpError::NoContentType(url()).message(),
        "Response did not contain a Content-Type header:\nURL: https://example.com/a"
    );
}

#[test]
fn reason_is_that_of_the_status() {
    assert_eq!(canonical_reason(200), "OK");
    assert_eq!(canonical_reason(503), "Service Unavailable");
    assert_eq!(canonical_reason(99), "");
    assert_eq!(canonical_reason(1000), "");
}

#[test]
fn database_errors_are_written_out() {
    assert_eq!(DatabaseError::NotFound("irl".to_owned()).message(), "Podcast not found: irl");
    assert_eq!(
        DatabaseError::Io("p.yml".to_owned(), "denied".to_owned()).message(),
        "An I/O error occurred.\nPath: p.yml\ndenied"
    );
    assert_eq!(
        DatabaseError::Serialization("p.yml".to_owned(), "bad".to_owned()).message(),
        "A serialization error occurred.\nPath: p.yml\nbad"
    );
    assert_eq!(
        DatabaseError::Deserialization("p.yml".to_owned(), "bad".to_owned()).message(),
        "A deserialization error occurred.\nPath: p.yml\nbad"
    );
}

#[test]
fn image_errors_are_written_out() {
    assert_eq!(ImageError::IO("x".to_owned()).message(), "An I/O error occurred: x");
    assert_eq!(ImageError::UnknownFormat.message(), "Unable to determine image format");
    assert_eq!(ImageError::Image("x".to_owned()).message(), "An image error occurred: x");
    assert_eq!(ImageError::ImageBuffer("x".to_owned()).message(), "An image buffer error occurred: x");
    assert_eq!(ImageError::Resize("x".to_owned()).message(), "A resize error occurred: x");
    assert_eq!(
        ImageError::UnsupportedFormat(ImageFormat::WebP).message(),
        "Unable to encode image format: WebP"
    );
    assert_eq!(
        ImageError::UnsupportedFormat(ImageFormat::Other("image/tiff".to_owned())).message(),
        "Unable to encode image format: image/tiff"
    );
}

#[test]
fn process_errors_are_written_out() {
    let stem = "2019-01-01 0002 Episode 2".to_owned();
    assert_eq!(
        ProcessError::DownloadAudio(stem.clone(), HttpError::NoContentType(url())).message(),
        "Unable to download audio for episode: 2019-01-01 0002 Episode 2\nResponse did not contain a Content-Type header:\nURL: https://example.com/a"
    );
    assert_eq!(
        ProcessError::IO(stem.clone(), "out".to_owned(), "full".to_owned()).message(),
        "An I/O error occurred while processing episode: 2019-01-01 0002 Episode 2\nPath: out\nfull"
    );
    assert_eq!(
        ProcessError::Tag(stem.clone(), "out".to_owned(), "bad".to_owned()).message(),
        "A tag error occurred while processing episode: 2019-01-01 0002 Episode 2\nPath: out\nbad"
    );
    assert_eq!(
        ProcessError::DownloadImage(stem.clone(), HttpError::Response(url(), 500)).message(),
        "Unable to download image for episode: 2019-01-01 0002 Episode 2\nUnexpected response status: 500 Internal Server Error\nURL: https://example.com/a"
    );
    assert_eq!(
        ProcessError::Task(stem.clone(), "cancelled".to_owned()).message(),
        "Unable to resize image for episode: 2019-01-01 0002 Episode 2\nA task error occurred:\ncancelled"
    );
    assert_eq!(
        ProcessError::ResizeImage(stem, ImageError::UnknownFormat).message(),
        "Unable to resize image for episode: 2019-01-01 0002 Episode 2\nUnable to determine image format"
    );
}

#[test]
fn command_errors_are_written_out() {
    assert_eq!(
        DownloadError::GetPodcast(DatabaseError::NotFound("irl".to_owned())).message(),
        "Failed to download\nUnable to get podcast\nPodcast not found: irl"
    );
    assert_eq!(
        FeedsError::GetPodcast(DatabaseError::NotFound("irl".to_owned())).message(),
        "Failed to create RSS feeds\nUnable to get podcast\nPodcast not found: irl"
    );
    assert_eq!(
        FeedsError::Xml("feed.xml".to_owned(), "denied".to_owned()).message(),
        "Failed to create RSS feeds\nUnable to write RSS\nPath: feed.xml\ndenied"
    );
    assert_eq!(
        CoverError::NoImage.message(),
        "Failed to create cover and banner images\nPodcast does not have an image"
    );
    assert_eq!(
        CoverError::GetPodcast(DatabaseError::NotFound("irl".to_owned())).message(),
        "Failed to create cover and banner images\nUnable to get podcast\nPodcast not found: irl"
    );
    assert_eq!(
        CoverError::GetImage(HttpError::NoContentType(url())).message(),
        "Failed to create cover and banner images\nUnable to get image:\nResponse did not contain a Content-Type header:\nURL: https://example.com/a"
    );
    assert_eq!(
        CoverError::Image(ImageError::UnknownFormat).message(),
        "Failed to create cover and banner images\nUnable to create image:\nUnable to determine image format"
    );
}

#[test]
fn validation_errors_are_written_out() {
    assert_eq!(ValidationError::Required("name".to_owned()).message(), "Required field `name` is empty");
    assert_eq!(ValidationError::RequiredPath("Output directory".to_owned()).message(), "Output directory is required");
    assert_eq!(
        ValidationError::PathNotExist("Cache".to_owned(), "c".to_owned()).message(),
        "Cache does not exist:\nc"
    );
    assert_eq!(
        ValidationError::DirectoryNotExist("Cache".to_owned(), "c".to_owned()).message(),
        "Cache is not a directory:\nc"
    );
    assert_eq!(
        ValidationError::FileNotExist("Cache".to_owned(), "c".to_owned()).message(),
        "Cache is not a file:\nc"
    );
    assert_eq!(
        ValidationError::Mismatch("IP address".to_owned(), "a".to_owned(), "b".to_owned()).message(),
        "IP address is not as expected\nExpected: a\nActual: b"
    );
    assert_eq!(
        ValidationError::Http(HttpError::NoContentType(url())).message(),
        "Response did not contain a Content-Type header:\nURL: https://example.com/a"
    );
}

#[test]
fn scrape_errors_are_written_out() {
    assert_eq!(
        ScrapeSimplecastError::PlayerNotFound(url()).message(),
        "Failed to scrape\nPage does not contain a Simplecast Player\nURL: https://example.com/a"
    );
    assert_eq!(
        ScrapeSimplecastError::GetPage(HttpError::NoContentType(url())).message(),
        "Failed to scrape\nUnable to get page\nResponse did not contain a Content-Type header:\nURL: https://example.com/a"
    );
    assert_eq!(
        ScrapeSimplecastError::GetEpisode("e1".to_owned(), HttpError::Response(url(), 404)).message(),
        "Failed to scrape\nUnable to get episode: e1\nUnexpected response status: 404 Not Found\nURL: https://example.com/a"
    );
    assert_eq!(
        ScrapeSimplecastError::GetPlaylist("s1".to_owned(), HttpError::Response(url(), 404)).message(),
        "Failed to scrape\nUnable to get playlist: s1\nUnexpected response status: 404 Not Found\nURL: https://example.com/a"
    );
    assert_eq!(
        ScrapeSimplecastError::InvalidUrl("x y".to_owned()).message(),
        "Failed to scrape\nAddress is not a URL: x y"
    );
    assert_eq!(
        ScrapeRssError::Parse("no root".to_owned()).message(),
        "Failed to scrape\nUnable to parse RSS\nno root"
    );
    assert_eq!(
        ScrapeRssError::Convert(PodcastConvertError::MissingGuid(3)).message(),
        "Failed to scrape\nUnable to convert RSS\nItem 3 has no GUID"
    );
    assert_eq!(
        ScrapeRssError::Xml(HttpError::NoContentType(url())).message(),
        "Failed to scrape\nUnable to get feed:\nResponse did not contain a Content-Type header:\nURL: https://example.com/a"
    );
    assert_eq!(
        ScrapeRssError::IO("irl".to_owned(), "f.xml".to_owned(), "denied".to_owned()).message(),
        "Failed to scrape\nAn I/O error occurred while processing episode: irl\nPath: f.xml\ndenied"
    );
    assert_eq!(
        ScrapeError::Head(HttpError::NoContentType(url())).message(),
        "Failed to scrape\nUnable to get content type:\nResponse did not contain a Content-Type header:\nURL: https://example.com/a"
    );
    assert_eq!(
        ScrapeError::Rss(ScrapeRssError::Parse("no root".to_owned())).message(),
        "Failed to scrape\nFailed to scrape\nUnable to parse RSS\nno root"
    );
    assert_eq!(
        ScrapeError::Simplecast(ScrapeSimplecastError::InvalidUrl("x".to_owned())).message(),
        "Failed to scrape\nFailed to scrape\nAddress is not a URL: x"
    );
    assert_eq!(
        ScrapeError::Save(DatabaseError::NotFound("irl".to_owned())).message(),
        "Failed to scrape\nUnable to save: Podcast not found: irl"
    );
}

#[test]
fn client_errors_are_written_out() {
    assert_eq!(ClientError::Status(404).message(), "404 Not Found");
    assert_eq!(ClientError::Status(799).message(), "799 ");
    assert_eq!(ClientError::Status(42).message(), "42");
    assert_eq!(ClientError::Network("down".to_owned()).message(), "down");
    assert_eq!(ClientError::Io("denied".to_owned()).message(), "denied");
    assert_eq!(ClientError::InvalidUrl("x".to_owned()).message(), "x");
}

#[test]
fn service_errors_are_written_out() {
    assert_eq!(
        ServiceError::GetConfig("no file".to_owned()).message(),
        "Failed to read config\nno file"
    );
    assert_eq!(
        ServiceError::ValidateConfig(vec![
            ValidationError::RequiredPath("Cache directory".to_owned()),
            ValidationError::DirectoryNotExist("Output directory".to_owned(), "output".to_owned()),
        ])
        .message(),
        "Failed to validate config\n\nCache directory is required\nOutput directory is not a directory:\noutput"
    );
    assert_eq!(
        ServiceError::Ip(HttpError::NoContentType(url())).message(),
        "Failed to determine IP\nResponse did not contain a Content-Type header:\nURL: https://example.com/a"
    );
}

#[test]
fn convert_errors_are_written_out() {
    assert_eq!(
        PodcastConvertError::InvalidLink("x y".to_owned()).message(),
        "Link of the channel is not a URL: x y"
    );
    assert_eq!(PodcastConvertError::MissingGuid(0).message(), "Item 0 has no GUID");
    assert_eq!(PodcastConvertError::MissingTitle(12).message(), "Item 12 has no title");
    assert_eq!(PodcastConvertError::MissingEnclosure(2).message(), "Item 2 has no enclosure");
    assert_eq!(
        PodcastConvertError::InvalidEnclosure(2, "nowhere".to_owned()).message(),
        "Item 2 has an enclosure that is not a URL: nowhere"
    );
    assert_eq!(PodcastConvertError::MissingDate(5).message(), "Item 5 has no publication date");
    assert_eq!(
        PodcastConvertError::InvalidDate(5, "yesterday".to_owned()).message(),
        "Item 5 has a publication date that is not valid: yesterday"
    );
}
