use pura::timestamp::Timestamp;
use pura::web::Url;

#[test]
fn parse_takes_a_url_apart() {
    let url = Url::parse("https://example.com/season-1/episode-1.mp3?abc=123&def=456#top")
        .expect("url should be valid");
    assert_eq!(
        url.as_str(),
        "https://example.com/season-1/episode-1.mp3?abc=123&def=456#top"
    );
    assert_eq!(url.host, Some("example.com".to_owned()));
    assert_eq!(url.domain, Some("example.com".to_owned()));
    assert_eq!(
        url.segments,
        Some(vec!["season-1".to_owned(), "episode-1.mp3".to_owned()])
    );
    assert_eq!(url.query, Some("abc=123&def=456".to_owned()));
}

#[test]
fn parse_writes_the_normal_form() {
    let url = Url::parse("HTTPS://Example.COM").expect("url should be valid");
    assert_eq!(url.as_str(), "https://example.com/");
    assert_eq!(url.segments, Some(vec!["".to_owned()]));
    assert_eq!(url.query, None);
}

#[test]
fn parse_tells_an_address_from_a_domain() {
    let url = Url::parse("http://127.0.0.1:8080/a").expect("url should be valid");
    assert_eq!(url.host, Some("127.0.0.1".to_owned()));
    assert_eq!(url.domain, None);
}

#[test]
fn parse_knows_urls_that_cannot_be_a_base() {
    let url = Url::parse("mailto:someone@example.com").expect("url should be valid");
    assert_eq!(url.host, None);
    assert_eq!(url.segments, None);
}

#[test]
fn parse_rejects_what_is_no_url() {
    assert!(Url::parse("").is_none());
    assert!(Url::parse("not a url").is_none());
    assert!(Url::parse("/relative/path").is_none());
}

#[test]
fn url_extension_is_that_of_the_last_segment() {
    let audio = Url::parse("https://example.com/season-1/episode-1.mp3").expect("valid");
    assert_eq!(audio.get_extension(), Some("mp3".to_owned()));
    let page = Url::parse("https://example.com/v1.2/page").expect("valid");
    assert_eq!(page.get_extension(), None);
    let root = Url::parse("https://example.com").expect("valid");
    assert_eq!(root.get_extension(), None);
    let mail = Url::parse("mailto:someone@example.com").expect("valid");
    assert_eq!(mail.get_extension(), None);
}

#[test]
fn join_resolves_against_the_base() {
    let base = Url::parse("https://example.com/podcasts/").expect("valid");
    let url = base.join("irl/S01/2019/a file.mp3").expect("should join");
    assert_eq!(url.as_str(), "https://example.com/podcasts/irl/S01/2019/a%20file.mp3");
    assert_eq!(url.domain, Some("example.com".to_owned()));
}

#[test]
fn duplicate_keeps_every_part() {
    let url = Url::parse("https://example.com/a/b?c=d").expect("valid");
    let copy = url.duplicate();
    assert_eq!(copy.text, url.text);
    assert_eq!(copy.host, url.host);
    assert_eq!(copy.domain, url.domain);
    assert_eq!(copy.segments, url.segments);
    assert_eq!(copy.query, url.query);
}

#[test]
fn timestamp_shows_the_date_on_its_own_clock() {
    let utc = Timestamp::new(1_561_964_400, 0, 0).expect("should be valid");
    assert_eq!(utc.year(), 2019);
    assert_eq!(utc.date(), "2019-07-01");
    let west = Timestamp::new(1_561_964_400, 0, -28_800).expect("should be valid");
    assert_eq!(west.date(), "2019-06-30");
    let eve = Timestamp::new(1_546_300_800, 0, -3_600).expect("should be valid");
    assert_eq!(eve.year(), 2018);
    assert_eq!(eve.date(), "2018-12-31");
    let epoch = Timestamp::new(0, 0, 0).expect("should be valid");
    assert_eq!(epoch.year(), 1970);
    assert_eq!(epoch.date(), "1970-01-01");
    let before = Timestamp::new(-1, 0, 0).expect("should be valid");
    assert_eq!(before.date(), "1969-12-31");
}

#[test]
fn timestamp_keeps_what_it_was_made_of() {
    let stamp = Timestamp::new(1_561_964_400, 500, 7_200).expect("should be valid");
    assert_eq!(stamp.unix_seconds(), 1_561_964_400);
    assert_eq!(stamp.subsec_nanos(), 500);
    assert_eq!(stamp.offset_seconds(), 7_200);
}

#[test]
fn timestamp_rejects_what_the_calendar_cannot_hold() {
    assert!(Timestamp::new(0, 0, 86_400).is_none());
    assert!(Timestamp::new(0, 0, -86_400).is_none());
    assert!(Timestamp::new(i64::MAX, 0, 0).is_none());
    assert!(Timestamp::new(i64::MIN, 0, 0).is_none());
    assert!(Timestamp::new(0, 1_000_000_000, 0).is_none());
    assert!(Timestamp::new(59, 2_000_000_000, 0).is_none());
    assert!(Timestamp::new(59, 1_500_000_000, 0).is_some());
}
