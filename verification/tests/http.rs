use pura::scrape::client::{Client, ClientError};
use pura::scrape::html_provider::{Cached, HtmlProvider, HtmlProviderError, Page};
use pura::services::http::{
    get_content_type, Fetch, HeadOutcome, HttpClient, HttpError, Judgement, Outcome, Transfer,
    HEAD_EXTENSION, HTML_EXTENSION, JSON_EXTENSION, MP3_EXTENSION,
};
use pura::services::paths::PathProvider;
use pura::web::Url;

fn client() -> HttpClient {
    HttpClient::new(PathProvider::default().get_http_dir())
}

#[test]
fn default_client_caches_below_the_default_directory() {
    assert_eq!(HttpClient::default().dir(), "cache/http");
    assert_eq!(HttpClient::default().dir(), client().dir());
}

fn path_of(fetch: &Fetch) -> &str {
    match fetch {
        Fetch::Hit(path) => path,
        Fetch::Miss(path) => path,
    }
}

#[test]
fn head() {
    // Arrange
    let header = Some("Text/HTML; charset=UTF-8");

    // Act
    let result = get_content_type(header);

    // Assert
    let content_type = result.expect("should have a content type");
    assert_eq!(content_type, "text/html");
}

#[test]
fn head_xml() {
    let content_type = get_content_type(Some(" application/xml ")).expect("should have a content type");
    assert_eq!(content_type, "application/xml");
}

#[test]
fn content_type_of_no_header_is_none() {
    assert_eq!(get_content_type(None), None);
    assert_eq!(get_content_type(Some("")), Some(String::new()));
    assert_eq!(get_content_type(Some(";charset=utf-8")), Some(String::new()));
    assert_eq!(get_content_type(Some("audio/mpeg")), Some("audio/mpeg".to_owned()));
}

#[test]
fn http_get() {
    // Arrange
    let http = client();
    let url = Url::parse("https://example.com/?abc=123&def=456").expect("url should be valid");
    let expected = http.get_cache_path(&url, Some(HTML_EXTENSION));

    // Act
    let result = http.get(&url, Some(HTML_EXTENSION), false);

    // Assert
    assert_eq!(path_of(&result), expected);
    assert!(matches!(result, Fetch::Miss(_)));
}

#[test]
fn cache_path_has_domain_path_and_encoded_query() {
    let http = client();
    let url = Url::parse("https://example.com/?abc=123&def=456").expect("url should be valid");
    assert_eq!(
        http.get_cache_path(&url, Some(HTML_EXTENSION)),
        "cache/http/example.com/__root-abc%3D123%26def%3D456.html"
    );
    let feed = Url::parse("https://feeds.simplecast.com/lP7owBq8").expect("url should be valid");
    assert_eq!(
        http.get_cache_path(&feed, Some(HEAD_EXTENSION)),
        "cache/http/feeds.simplecast.com/lP7owBq8.head"
    );
    let api = Url::parse("https://api.simplecast.com/podcasts/abc/playlist?limit=50&offset=50")
        .expect("url should be valid");
    assert_eq!(
        http.get_cache_path(&api, Some(JSON_EXTENSION)),
        "cache/http/api.simplecast.com/podcasts/abc/playlist-limit%3D50%26offset%3D50.json"
    );
}

#[test]
fn cache_path_appends_the_extension() {
    let http = client();
    let audio = Url::parse("https://example.com/season-1/episode-1.mp3").expect("valid");
    assert_eq!(
        http.get_cache_path(&audio, Some(MP3_EXTENSION)),
        "cache/http/example.com/season-1/episode-1.mp3.mp3"
    );
    assert_eq!(
        http.get_cache_path(&audio, None),
        "cache/http/example.com/season-1/episode-1.mp3"
    );
}

#[test]
fn cache_path_has_sentinels_for_what_is_missing() {
    let http = client();
    let root = Url::parse("https://example.com").expect("valid");
    assert_eq!(http.get_cache_path(&root, None), "cache/http/example.com/__root");
    let address = Url::parse("http://127.0.0.1/a//b/").expect("valid");
    assert_eq!(http.get_cache_path(&address, Some("html")), "cache/http/__unknown/a/b.html");
    let mail = Url::parse("mailto:someone@example.com").expect("valid");
    assert_eq!(http.get_cache_path(&mail, None), "cache/http/__unknown/__root");
}

#[test]
fn cache_path_encodes_every_byte_of_the_query() {
    let http = HttpClient::new("c".to_owned());
    let url = Url {
        text: "https://example.com/a?q".to_owned(),
        host: Some("example.com".to_owned()),
        domain: Some("example.com".to_owned()),
        segments: Some(vec!["a".to_owned()]),
        query: Some("AZaz09-._~ /?%\u{e9}\u{1F600}".to_owned()),
    };
    assert_eq!(
        http.get_cache_path(&url, None),
        "c/example.com/a-AZaz09-._~%20%2F%3F%25%C3%A9%F0%9F%98%80"
    );
}

#[test]
fn resolve_is_the_same_each_time() {
    let http = client();
    let url = Url::parse("https://example.com/a/b?c=d").expect("valid");
    let first = http.get_cache_path(&url, Some(JSON_EXTENSION));
    let second = http.get_cache_path(&url.duplicate(), Some(JSON_EXTENSION));
    assert_eq!(first, second);
}

#[test]
fn kinds_do_not_share_a_file() {
    let http = client();
    let url = Url::parse("https://example.com/page.html").expect("valid");
    let raw = http.get_cache_path(&url, None);
    let html = http.get_cache_path(&url, Some(HTML_EXTENSION));
    let json = http.get_cache_path(&url, Some(JSON_EXTENSION));
    let head = http.get_cache_path(&url, Some(HEAD_EXTENSION));
    assert_ne!(raw, html);
    assert_ne!(html, json);
    assert_ne!(json, head);
    assert_ne!(raw, head);
}

#[test]
fn fetch_after_fetch_asks_the_network_for_nothing() {
    let http = client();
    let url = Url::parse("https://example.com/a").expect("valid");
    let mut files: Vec<String> = Vec::new();
    let mut network_calls = 0;
    for _ in 0..3 {
        let path = http.get_cache_path(&url, Some(HTML_EXTENSION));
        match http.get(&url, Some(HTML_EXTENSION), files.contains(&path)) {
            Fetch::Hit(_) => {}
            Fetch::Miss(path) => {
                network_calls += 1;
                files.push(path);
            }
        }
    }
    assert_eq!(network_calls, 1);
    assert_eq!(files, vec!["cache/http/example.com/a.html".to_owned()]);
}

#[test]
fn head_is_cached_apart_from_get() {
    let http = client();
    let url = Url::parse("https://example.com/a").expect("valid");
    let head = http.head(&url, true);
    assert!(matches!(&head, Fetch::Hit(path) if path == "cache/http/example.com/a.head"));
    let miss = http.head(&url, false);
    assert!(matches!(&miss, Fetch::Miss(path) if path == "cache/http/example.com/a.head"));
}

#[test]
fn get_json() {
    let http = client();
    let url = Url::parse("https://ipinfo.io").expect("url should be valid");
    assert!(matches!(http.get_json(&url, None), Judgement::Accept));
}

#[test]
fn invalid_json_is_removed_and_fetched_again() {
    let http = client();
    let url = Url::parse("https://api.simplecast.com/episodes/abc").expect("valid");
    let path = http.get_cache_path(&url, Some(JSON_EXTENSION));
    let mut files = vec![path.clone()];
    assert!(matches!(http.get(&url, Some(JSON_EXTENSION), files.contains(&path)), Fetch::Hit(_)));
    match http.get_json(&url, Some("expected value at line 1 column 1".to_owned())) {
        Judgement::Reject(stale, HttpError::InvalidJson(file, cause)) => {
            assert_eq!(stale, "cache/http/api.simplecast.com/episodes/abc.json");
            assert_eq!(file, stale);
            assert_eq!(cause, "expected value at line 1 column 1");
            files.retain(|f| *f != stale);
        }
        other => panic!("unexpected answer: {other:?}"),
    }
    assert!(matches!(http.get(&url, Some(JSON_EXTENSION), files.contains(&path)), Fetch::Miss(_)));
}

#[test]
fn status_outside_the_two_hundreds_is_an_error() {
    let url = Url::parse("https://example.com/a").expect("valid");
    assert!(HttpClient::check_status(&url, 200).is_ok());
    assert!(HttpClient::check_status(&url, 204).is_ok());
    assert!(HttpClient::check_status(&url, 299).is_ok());
    for status in [100, 199, 300, 301, 404, 500] {
        match HttpClient::check_status(&url, status) {
            Err(HttpError::Response(failed, code)) => {
                assert_eq!(failed.as_str(), "https://example.com/a");
                assert_eq!(code, status);
            }
            other => panic!("unexpected result: {other:?}"),
        }
    }
}

#[test]
fn removal_took_place_where_the_file_was_deleted() {
    assert!(HttpClient::remove(true, true));
    assert!(!HttpClient::remove(true, false));
    assert!(!HttpClient::remove(false, true));
    assert!(!HttpClient::remove(false, false));
}

#[test]
fn client_get() {
    // Arrange
    let client = Client { cache_dir: "cache".to_owned() };
    let url = Url::parse("https://httpbin.org/html").expect("url should be valid");
    let expected = client.get_cache_path(&url);

    // Act
    let fetch = client.get(&url, false);

    // Assert
    assert_eq!(path_of(&fetch), expected);
    assert!(matches!(fetch, Fetch::Miss(_)));
    assert!(matches!(client.get(&url, true), Fetch::Hit(_)));
}

#[test]
fn client_names_files_after_the_hash_of_the_url() {
    let client = Client { cache_dir: "cache".to_owned() };
    let page = Url::parse("https://httpbin.org/html").expect("url should be valid");
    assert_eq!(
        client.get_cache_path(&page),
        "cache/httpbin.org/8badbcb95530e9c2f2f346ef005bd526d7d20ca2014208d030df5b4b6e7c36cc.html"
    );
    let image = Url::parse("https://example.com/image.jpg").expect("url should be valid");
    assert_eq!(
        client.get_cache_path(&image),
        "cache/example.com/e5db82b5bf63d49d80c5533616892d3386f43955369520986d67653c700fc53c.jpg"
    );
}

#[test]
fn client_writes_successes_only() {
    assert!(Client::download_to_cache(200).is_ok());
    assert!(matches!(Client::download_to_cache(404), Err(ClientError::Status(404))));
    assert!(HtmlProvider::fetch_and_cache(201).is_ok());
    assert!(matches!(HtmlProvider::fetch_and_cache(503), Err(HtmlProviderError::Status(503))));
}

#[test]
fn html_provider_reads_the_cache_first() {
    let provider = HtmlProvider { cache_dir: "cache".to_owned() };
    let url = "https://httpbin.org/html";
    let expected = "cache/8badbcb95530e9c2f2f346ef005bd526d7d20ca2014208d030df5b4b6e7c36cc.html";
    assert_eq!(provider.get_cache_path(url), expected);
    assert!(matches!(
        provider.get(url, Cached::Found("<html></html>".to_owned())),
        Page::Content(content) if content == "<html></html>"
    ));
    assert!(matches!(provider.get(url, Cached::Absent), Page::Fetch(path) if path == expected));
    assert!(matches!(
        provider.get(url, Cached::Unreadable("permission denied".to_owned())),
        Page::Fetch(path) if path == expected
    ));
}

#[test]
fn download_goes_on_after_a_success_only() {
    let url = Url::parse("https://example.com/a").expect("valid");
    let decide = |outcome| HttpClient::download_to_cache(&url, "cache/http/example.com/a", outcome);
    assert!(matches!(decide(Outcome::Responded(200)), Transfer::Receive));
    assert!(matches!(decide(Outcome::Written), Transfer::Done));
    assert!(matches!(
        decide(Outcome::Responded(404)),
        Transfer::Failed(HttpError::Response(failed, 404)) if failed.as_str() == "https://example.com/a"
    ));
    assert!(matches!(
        decide(Outcome::RequestFailed("timed out".to_owned())),
        Transfer::Failed(HttpError::Request(failed, cause))
            if failed.as_str() == "https://example.com/a" && cause == "timed out"
    ));
    assert!(matches!(
        decide(Outcome::BodyFailed("reset".to_owned())),
        Transfer::Failed(HttpError::ResponseIo(_, cause)) if cause == "reset"
    ));
    assert!(matches!(
        decide(Outcome::DirectoryFailed("cache/http/example.com".to_owned(), "denied".to_owned())),
        Transfer::Failed(HttpError::Io(path, cause)) if path == "cache/http/example.com" && cause == "denied"
    ));
    assert!(matches!(
        decide(Outcome::FileFailed("disk full".to_owned())),
        Transfer::Failed(HttpError::Io(path, cause)) if path == "cache/http/example.com/a" && cause == "disk full"
    ));
}

#[test]
fn head_request_gives_the_content_type_in_normal_form() {
    let url = Url::parse("https://example.com/a").expect("valid");
    assert_eq!(
        HttpClient::head_to_cache(&url, HeadOutcome::Responded(Some("Application/XML; q=1".to_owned())))
            .expect("ok"),
        "application/xml"
    );
    assert_eq!(HttpClient::head_to_cache(&url, HeadOutcome::Responded(None)).expect("ok"), "");
    assert!(matches!(
        HttpClient::head_to_cache(&url, HeadOutcome::RequestFailed("refused".to_owned())),
        Err(HttpError::Request(_, cause)) if cause == "refused"
    ));
    assert!(matches!(
        HttpClient::head_to_cache(&url, HeadOutcome::DirectoryFailed("d".to_owned(), "denied".to_owned())),
        Err(HttpError::Io(dir, cause)) if dir == "d" && cause == "denied"
    ));
}
