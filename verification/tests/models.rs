use hammond_data::errors::{DownloadError, ErrorKind, HttpError, SourceError};
use hammond_data::models::{Episode, Podcast, Source};
use hammond_data::text::{contains, i32_to_string, starts_with, str_eq, trim_blanks};

fn episode() -> Episode {
    Episode::new(7, Some("title"), "http://m/1.mp3", Some("d"), Some("date"), 100, Some(5), Some("g"), 3)
}

#[test]
fn new_episode_is_unplayed_and_not_downloaded() {
    let e = episode();
    assert_eq!(e.id(), 7);
    assert_eq!(e.title(), Some("title"));
    assert_eq!(e.uri(), "http://m/1.mp3");
    assert_eq!(e.local_uri(), None);
    assert_eq!(e.description(), Some("d"));
    assert_eq!(e.published_date(), Some("date"));
    assert_eq!(e.epoch(), 100);
    assert_eq!(e.length(), Some(5));
    assert_eq!(e.guid(), Some("g"));
    assert_eq!(e.played(), None);
    assert!(!e.favorite());
    assert!(!e.archive());
    assert_eq!(e.podcast_id(), 3);
}

#[test]
fn episode_setters_change_one_field() {
    let mut e = episode();
    e.set_title(None);
    assert_eq!(e.title(), None);
    e.set_uri("u");
    assert_eq!(e.uri(), "u");
    e.set_local_uri(Some("/tmp/x"));
    assert_eq!(e.local_uri(), Some("/tmp/x"));
    e.set_description(None);
    assert_eq!(e.description(), None);
    e.set_published_date(Some("p"));
    assert_eq!(e.published_date(), Some("p"));
    e.set_guid(None);
    assert_eq!(e.guid(), None);
    e.set_epoch(-4);
    assert_eq!(e.epoch(), -4);
    e.set_length(None);
    assert_eq!(e.length(), None);
    e.set_played(Some(9));
    assert_eq!(e.played(), Some(9));
    e.set_archive(true);
    assert!(e.archive());
    e.set_favorite(true);
    assert!(e.favorite());
    assert_eq!(e.id(), 7);
    assert_eq!(e.podcast_id(), 3);
}

#[test]
fn played_time_is_kept_in_32_bits() {
    let mut e = episode();
    e.set_played_at(1_700_000_000);
    assert_eq!(e.played(), Some(1_700_000_000));
    e.set_played_at(4_294_967_296 + 5);
    assert_eq!(e.played(), Some(5));
    e.set_played_now();
    assert!(e.played().is_some());
    assert_eq!(e.title(), Some("title"));
}

#[test]
fn podcast_accessors() {
    let mut p = Podcast::new(1, "t", "l", "d", Some("i"), 9);
    assert_eq!(p.id(), 1);
    assert_eq!(p.source_id(), 9);
    assert_eq!(p.title(), "t");
    assert_eq!(p.link(), "l");
    assert_eq!(p.description(), "d");
    assert_eq!(p.image_uri(), Some("i"));
    assert!(!p.archive() && !p.favorite() && !p.always_download());
    p.set_link("l2");
    p.set_description("d2");
    p.set_image_uri(None);
    p.set_archive(true);
    p.set_favorite(true);
    p.set_always_download(true);
    assert_eq!(p.link(), "l2");
    assert_eq!(p.description(), "d2");
    assert_eq!(p.image_uri(), None);
    assert!(p.archive() && p.favorite() && p.always_download());
    assert_eq!(p.title(), "t");
}

#[test]
fn source_accessors() {
    let mut s = Source::new(2, "http://f", None, Some("abc"));
    assert_eq!(s.id(), 2);
    assert_eq!(s.uri(), "http://f");
    assert_eq!(s.last_modified(), None);
    assert_eq!(s.http_etag(), Some("abc"));
    s.set_last_modified(Some("yesterday"));
    s.set_http_etag(None);
    assert_eq!(s.last_modified(), Some("yesterday"));
    assert_eq!(s.http_etag(), None);
}

#[test]
fn text_helpers() {
    assert!(str_eq("abc", "abc"));
    assert!(!str_eq("abc", "abd"));
    assert!(starts_with("http://x", "http://"));
    assert!(!starts_with("ttp://x", "http://"));
    assert!(starts_with("x", ""));
    assert!(contains("my.itunes.com/x", "itunes.com"));
    assert!(!contains("my.itunes.co", "itunes.com"));
    assert!(contains("abc", ""));
    assert!(contains("abc", "c"));
    assert_eq!(i32_to_string(0), "0");
    assert_eq!(i32_to_string(42), "42");
    assert_eq!(i32_to_string(-42), "-42");
    assert_eq!(i32_to_string(i32::MAX), "2147483647");
    assert_eq!(i32_to_string(i32::MIN), "-2147483648");
    assert_eq!(trim_blanks("  a b  "), "a b");
    assert_eq!(trim_blanks("   "), "");
    assert_eq!(trim_blanks(""), "");
    assert_eq!(trim_blanks("x"), "x");
}

#[test]
fn error_kinds() {
    assert_eq!(HttpError::ReqError("x".to_string()).kind(), ErrorKind::Network);
    assert_eq!(HttpError::HyperError("x".to_string()).kind(), ErrorKind::Network);
    assert_eq!(HttpError::TLSError("x".to_string()).kind(), ErrorKind::Network);
    assert_eq!(DownloadError::NoLongerNeeded.kind(), ErrorKind::NoLongerNeeded);
    assert_eq!(DownloadError::NoImageLocation.kind(), ErrorKind::TerminalConfig);
    assert_eq!(DownloadError::TimedOut.kind(), ErrorKind::Timeout);
    assert_eq!(DownloadError::Failed.kind(), ErrorKind::Network);
    assert_eq!(SourceError::OutOfIds.kind(), ErrorKind::Data);
    assert!(!ErrorKind::NoLongerNeeded.reported());
    for k in [ErrorKind::Network, ErrorKind::Protocol, ErrorKind::Data, ErrorKind::NotFound, ErrorKind::Timeout, ErrorKind::TerminalConfig] {
        assert!(k.reported());
    }
    assert!(ErrorKind::Network.retryable());
    assert!(ErrorKind::Timeout.retryable());
    assert!(ErrorKind::Data.retryable());
    assert!(!ErrorKind::TerminalConfig.retryable());
    assert!(!ErrorKind::Protocol.retryable());
    assert!(!ErrorKind::NotFound.retryable());
    assert!(!ErrorKind::NoLongerNeeded.retryable());
}
