use hammond_data::errors::{ErrorKind, HttpError, SourceError};
use hammond_data::feed::FeedError;
use hammond_data::fetch::{HttpResponse, Validator};
use hammond_data::models::{Episode, Source};
use hammond_data::pipeline::{
    collect_failures, pipeline, plan_requests, process_source, refresh_feed, Collector, Job,
};
use hammond_data::feed::RawItem;
use hammond_data::fetch::Feed;
use hammond_data::models::Podcast;
use hammond_data::pipeline::{
    cover_files, delete_show, determine_ep_state, glue, index_episodes, index_loop,
};
use hammond_data::parser::{parse_podcast, NewEpisodeMinimal, NewPodcast};
use hammond_data::reconcile::{EpisodeTable, IndexState};
use hammond_data::shows::ShowTable;
use hammond_data::sources::SourceTable;

const FEED: &str = "<rss version=\"2.0\"><channel><title>Show</title><link>http://show</link><description>About</description><item><title>one</title><enclosure url=\"http://m/1.mp3\" length=\"10\" type=\"audio/mpeg\"/><guid>g1</guid><pubDate>Wed, 18 Feb 2015 23:16:09 GMT</pubDate></item><item><title>two</title><enclosure url=\"http://m/2.mp3\" length=\"20\" type=\"audio/mpeg\"/><guid>g2</guid></item><item><title>three</title><enclosure url=\"http://m/3.mp3\" length=\"30\" type=\"audio/mpeg\"/><guid>g3</guid></item></channel></rss>";

fn response(status: u16, etag: Option<&str>, body: &str) -> HttpResponse {
    HttpResponse {
        status,
        etag: etag.map(|s| s.to_string()),
        last_modified: None,
        body: body.to_string(),
    }
}

#[test]
fn request_carries_the_stored_validators() {
    let s = Source::new(1, "https://feed.example/rss", Some("Tue, 1 Jan 2019"), Some("abc"));
    let h = s.request_headers(false);
    assert_eq!(h.len(), 2);
    assert_eq!(h[0].name, Validator::IfNoneMatch);
    assert_eq!(h[0].value, "abc");
    assert_eq!(h[1].name, Validator::IfModifiedSince);
    assert_eq!(h[1].value, "Tue, 1 Jan 2019");
    assert!(s.request_headers(true).is_empty());
    let bare = Source::new(1, "u", None, None);
    assert!(bare.request_headers(false).is_empty());
}

#[test]
fn validators_of_the_response_replace_the_stored_ones() {
    let mut s = Source::new(1, "u", Some("old"), Some("abc"));
    assert!(!s.update_etag(Some("abc"), Some("old")));
    assert!(!s.update_etag(None, None));
    assert_eq!(s.http_etag(), Some("abc"));
    assert_eq!(s.last_modified(), Some("old"));
    assert!(s.update_etag(Some("v1"), None));
    assert_eq!(s.http_etag(), Some("v1"));
    assert_eq!(s.last_modified(), Some("old"));
    assert!(s.update_etag(None, Some("new")));
    assert_eq!(s.last_modified(), Some("new"));
}

#[test]
fn not_modified_response_yields_no_feed_and_keeps_validators() {
    let s = Source::new(1, "u", None, Some("abc"));
    let f = s.into_feed(&response(304, None, ""));
    assert!(!f.validators_changed);
    assert_eq!(f.source.http_etag(), Some("abc"));
    assert!(matches!(f.feed, Ok(None)));
    let s = Source::new(1, "u", None, Some("abc"));
    let f = s.into_feed(&response(304, Some("abc"), "ignored body"));
    assert!(!f.validators_changed);
    assert!(matches!(f.feed, Ok(None)));
    let s = Source::new(1, "u", None, Some("abc"));
    let f = s.into_feed(&response(200, None, ""));
    assert!(matches!(f.feed, Ok(None)));
}

#[test]
fn body_is_parsed_whatever_the_status() {
    let s = Source::new(4, "u", None, None);
    let f = s.into_feed(&response(404, Some("v1"), FEED));
    assert!(f.validators_changed);
    assert_eq!(f.source.http_etag(), Some("v1"));
    let feed = f.feed.ok().unwrap().unwrap();
    assert_eq!(feed.source_id, 4);
    assert_eq!(feed.channel.title, "Show");
    assert_eq!(feed.channel.items.len(), 3);
}

#[test]
fn malformed_body_fails_after_validators_were_taken() {
    let s = Source::new(1, "u", None, None);
    let f = s.into_feed(&response(200, Some("v9"), "<html>no feed</html>"));
    assert!(f.validators_changed);
    assert_eq!(f.source.http_etag(), Some("v9"));
    assert!(matches!(f.feed, Err(FeedError::Malformed(_))));
}

#[test]
fn end_to_end_two_runs() {
    let mut shows = ShowTable::new();
    let mut episodes = EpisodeTable::new();
    let source = Source::new(1, "https://feed.example/rss", None, None);
    assert!(source.request_headers(false).is_empty());
    let r = process_source(source, Ok(response(200, Some("v1"), FEED)), &mut shows, &mut episodes, 1000);
    assert!(r.save_source);
    assert_eq!(r.source.http_etag(), Some("v1"));
    let feed_report = r.result.ok().unwrap().unwrap();
    assert!(feed_report.show_inserted);
    assert_eq!(feed_report.show_id, 1);
    let report = feed_report.episodes;
    assert_eq!(report.inserted, 3);
    assert_eq!(report.updated, 0);
    assert_eq!(report.unchanged, 0);
    assert_eq!(report.skipped, 0);
    assert_eq!(report.refused, 0);
    assert_eq!(report.writes(), 3);
    assert_eq!(report.plan.len(), 3);
    assert!(report.plan.iter().all(|s| matches!(s, IndexState::Index(_))));
    assert_eq!(shows.len(), 1);
    assert_eq!(shows.row(0).title(), "Show");
    assert_eq!(shows.row(0).source_id(), 1);
    assert_eq!(episodes.len(), 3);
    assert_eq!(episodes.row(0).epoch(), 1424301369);
    assert_eq!(episodes.row(1).epoch(), 1000);
    assert_eq!(episodes.row(2).title(), Some("three"));
    assert_eq!(episodes.row(2).podcast_id(), shows.row(0).id());

    let source = r.source;
    let headers = source.request_headers(false);
    assert_eq!(headers.len(), 1);
    assert_eq!(headers[0].value, "v1");
    let r = process_source(source, Ok(response(304, Some("v1"), "")), &mut shows, &mut episodes, 2000);
    assert!(!r.save_source);
    assert!(matches!(r.result, Ok(None)));
    assert_eq!(episodes.len(), 3);
    assert_eq!(episodes.row(1).epoch(), 1000);
}

#[test]
fn second_run_on_the_same_body_writes_no_episode() {
    let mut shows = ShowTable::new();
    let mut episodes = EpisodeTable::new();
    let source = Source::new(1, "u", None, None);
    let r = process_source(source, Ok(response(200, None, FEED)), &mut shows, &mut episodes, 1000);
    let r = process_source(r.source, Ok(response(200, None, FEED)), &mut shows, &mut episodes, 2000);
    let feed_report = r.result.ok().unwrap().unwrap();
    assert!(!feed_report.show_inserted);
    let report = feed_report.episodes;
    assert_eq!(report.writes(), 0);
    assert_eq!(report.unchanged, 3);
    assert!(report.plan.iter().all(|s| matches!(s, IndexState::NotChanged)));
    assert_eq!(episodes.len(), 3);
    assert_eq!(episodes.row(1).epoch(), 1000);
    assert_eq!(shows.len(), 1);
}

#[test]
fn one_failing_source_does_not_stop_the_batch() {
    let mut shows = ShowTable::new();
    let mut episodes = EpisodeTable::new();
    let jobs = vec![
        Job { source: Source::new(1, "a", None, None), fetched: Err(HttpError::ReqError("timeout".to_string())) },
        Job { source: Source::new(2, "b", None, None), fetched: Ok(response(200, None, "garbage")) },
        Job { source: Source::new(3, "c", None, None), fetched: Ok(response(200, Some("e"), FEED)) },
        Job { source: Source::new(4, "d", None, Some("x")), fetched: Ok(response(304, None, "")) },
    ];
    let reports = pipeline(jobs, &mut shows, &mut episodes, 5);
    assert_eq!(reports.len(), 4);
    assert!(matches!(reports[0].result, Err(SourceError::Http(HttpError::ReqError(_)))));
    assert!(!reports[0].save_source);
    assert!(matches!(reports[1].result, Err(SourceError::Feed(FeedError::Malformed(_)))));
    assert!(matches!(reports[2].result, Ok(Some(_))));
    assert!(reports[2].save_source);
    assert_eq!(reports[2].source.id(), 3);
    assert!(matches!(reports[3].result, Ok(None)));
    assert_eq!(episodes.len(), 3);
    let failures = collect_failures(&reports);
    assert_eq!(failures, vec![(1, ErrorKind::Network), (2, ErrorKind::Protocol)]);
}

#[test]
fn requests_are_planned_per_source() {
    let sources = vec![Source::new(1, "a", None, Some("t")), Source::new(2, "b", Some("m"), None)];
    let plan = plan_requests(&sources, false);
    assert_eq!(plan.len(), 2);
    assert_eq!(plan[0].source_id, 1);
    assert_eq!(plan[0].uri, "a");
    assert_eq!(plan[0].headers.len(), 1);
    assert_eq!(plan[0].headers[0].name, Validator::IfNoneMatch);
    assert_eq!(plan[1].headers[0].name, Validator::IfModifiedSince);
    let forced = plan_requests(&sources, true);
    assert!(forced.iter().all(|r| r.headers.is_empty()));
}

#[test]
fn collector_completes_when_all_settled() {
    let mut c: Collector<u8> = Collector::new(2);
    assert!(!c.is_complete());
    assert_eq!(c.settle(5), None);
    assert!(!c.is_complete());
    assert_eq!(c.settle(3), None);
    assert!(c.is_complete());
    assert_eq!(c.settle(9), Some(9));
    assert_eq!(c.into_results().ok().unwrap(), vec![5, 3]);
    let c: Collector<u8> = Collector::new(1);
    assert!(c.into_results().is_err());
    let c: Collector<u8> = Collector::new(0);
    assert!(c.is_complete());
}

#[test]
fn refresh_takes_the_named_sources_or_all() {
    let all = vec![Source::new(1, "a", None, None), Source::new(2, "b", None, None)];
    let r = refresh_feed(None, all);
    assert_eq!(r.len(), 2);
    let all = vec![Source::new(1, "a", None, None), Source::new(2, "b", None, None)];
    let r = refresh_feed(Some(vec![Source::new(2, "b", None, None)]), all);
    assert_eq!(r.len(), 1);
    assert_eq!(r[0].id(), 2);
}

#[test]
fn subscribing_keeps_addresses_unique() {
    let mut t = SourceTable::new();
    assert_eq!(Source::from_url(&mut t, "http://a.example/feed").ok(), Some(0));
    assert_eq!(Source::from_url(&mut t, "http://b.example/feed").ok(), Some(1));
    assert_eq!(Source::from_url(&mut t, "http://a.example/feed").ok(), Some(0));
    assert_eq!(t.len(), 2);
    assert_eq!(t.row(0).id(), 1);
    assert_eq!(t.row(1).id(), 2);
    assert_eq!(t.row(1).uri(), "http://b.example/feed");
    assert_eq!(t.row(1).http_etag(), None);
    assert!(t.source_exists("http://b.example/feed"));
    assert!(!t.source_exists("http://c.example/feed"));
    match Source::from_url(&mut t, "not a url") {
        Err(e) => {
            assert!(matches!(e, SourceError::Http(HttpError::UrlError(_))));
            assert_eq!(e.kind(), ErrorKind::Network);
            assert!(e.kind().retryable());
        }
        Ok(_) => panic!("accepted"),
    }
    assert_eq!(t.len(), 2);
    let s = Source::new(1, "http://a.example/feed", None, Some("tag"));
    assert!(s.save(&mut t).is_ok());
    assert_eq!(t.row(0).http_etag(), Some("tag"));
    assert_eq!(t.row(1).http_etag(), None);
    let unknown = Source::new(77, "http://z.example/feed", None, None);
    assert!(unknown.save(&mut t).is_err());
    assert_eq!(t.len(), 2);
}

fn raw(title: Option<&str>, enclosure: Option<(&str, &str)>, guid: Option<&str>) -> RawItem {
    RawItem {
        title: title.map(|s| s.to_string()),
        link: None,
        description: None,
        enclosure: enclosure.map(|(u, l)| (u.to_string(), l.to_string())),
        guid: guid.map(|s| s.to_string()),
        pub_date: None,
    }
}

#[test]
fn items_are_counted_by_what_became_of_them() {
    let mut table = EpisodeTable::new();
    let items = vec![
        raw(Some("a"), Some(("http://m/a", "1")), Some("g")),
        raw(Some("no file"), None, None),
        raw(None, Some(("http://m/untitled", "x")), None),
        raw(Some("a"), Some(("http://m/a2", "1")), Some("g")),
        raw(Some("a"), Some(("http://m/a2", "1")), Some("g")),
    ];
    let report = index_episodes(&mut table, &items, 5, 99);
    assert_eq!(report.inserted, 2);
    assert_eq!(report.updated, 1);
    assert_eq!(report.unchanged, 1);
    assert_eq!(report.skipped, 1);
    assert_eq!(report.refused, 0);
    assert_eq!(report.plan.len(), 4);
    assert!(matches!(report.plan[0], IndexState::Index(_)));
    assert!(matches!(report.plan[1], IndexState::Index(_)));
    match &report.plan[2] {
        IndexState::Update((e, rowid)) => {
            assert_eq!(*rowid, 1);
            assert_eq!(e.uri, "http://m/a2");
        }
        _ => panic!("expected an update"),
    }
    assert!(matches!(report.plan[3], IndexState::NotChanged));
    assert_eq!(table.len(), 2);
    assert_eq!(table.row(0).uri(), "http://m/a2");
    assert_eq!(table.row(0).epoch(), 99);
    assert_eq!(table.row(1).title(), None);
    assert_eq!(table.row(1).length(), None);
    assert_eq!(table.row(1).id(), 2);
}

#[test]
fn decisions_against_the_table() {
    let mut table = EpisodeTable::new();
    let item = raw(Some("a"), Some(("http://m/a", "7")), Some("g1"));
    assert!(matches!(glue(&item, 1, &table, 0), Ok(IndexState::Index(_))));
    assert!(glue(&raw(Some("a"), None, None), 1, &table, 0).is_err());
    index_episodes(&mut table, &vec![raw(Some("a"), Some(("http://m/a", "7")), Some("g1"))], 1, 0);
    assert!(matches!(glue(&item, 1, &table, 0), Ok(IndexState::NotChanged)));
    assert!(matches!(glue(&item, 2, &table, 0), Ok(IndexState::Index(_))));
    let changed = raw(Some("a"), Some(("http://m/a", "7")), Some("g2"));
    let m = NewEpisodeMinimal::new(&changed, 1).ok().unwrap();
    match determine_ep_state(m, &changed, &table, 0) {
        IndexState::Update((e, rowid)) => {
            assert_eq!(rowid, 1);
            assert_eq!(e.guid.as_deref(), Some("g2"));
            assert_eq!(e.length, Some(7));
        }
        _ => panic!("expected an update"),
    }
    assert!(table.episode_exists(Some("a"), 1));
    assert!(!table.episode_exists(Some("a"), 2));
    assert!(!table.episode_exists(None, 1));
    let m = table.get_episode_minimal(Some("a"), 1).unwrap();
    assert_eq!(m.rowid(), 1);
    assert_eq!(m.uri, "http://m/a");
    assert!(table.get_episode_minimal(Some("b"), 1).is_none());
    assert_eq!(table.largest_id(), 1);
}

#[test]
fn show_is_overwritten_without_comparison() {
    let mut shows = ShowTable::new();
    let pd = NewPodcast {
        title: "T".to_string(),
        link: "l1".to_string(),
        description: "d1".to_string(),
        image_uri: Some("i1".to_string()),
        source_id: 4,
    };
    let w = shows.index_podcast(&pd).unwrap();
    assert!(w.inserted);
    assert_eq!(w.id, 1);
    let pd2 = NewPodcast {
        title: "T".to_string(),
        link: "l2".to_string(),
        description: "d2".to_string(),
        image_uri: None,
        source_id: 9,
    };
    let w = shows.index_podcast(&pd2).unwrap();
    assert!(!w.inserted);
    assert_eq!(w.id, 1);
    assert_eq!(shows.len(), 1);
    let row = shows.row(0);
    assert_eq!(row.link(), "l2");
    assert_eq!(row.description(), "d2");
    assert_eq!(row.image_uri(), None);
    assert_eq!(row.source_id(), 4);
    assert_eq!(shows.position("T"), Some(0));
    assert_eq!(shows.position("U"), None);
    let other = NewPodcast {
        title: "U".to_string(),
        link: String::new(),
        description: String::new(),
        image_uri: None,
        source_id: 5,
    };
    assert_eq!(shows.index_podcast(&other).unwrap().id, 2);
    let channel = hammond_data::feed::parse_channel(FEED).ok().unwrap();
    let pd = parse_podcast(&channel, 3);
    assert_eq!(pd.title, "Show");
    assert_eq!(pd.link, "http://show");
    assert_eq!(pd.description, "About");
    assert_eq!(pd.image_uri, None);
    assert_eq!(pd.source_id, 3);
}

#[test]
fn full_table_refuses_an_insert() {
    let rows = vec![Episode::new(i32::MAX, Some("z"), "u", None, None, 0, None, None, 1)];
    let mut table = EpisodeTable::from_rows(rows);
    let report = index_episodes(
        &mut table,
        &vec![raw(Some("a"), Some(("http://m/a", "1")), None), raw(Some("z"), Some(("u2", "1")), None)],
        1,
        0,
    );
    assert_eq!(report.refused, 1);
    assert_eq!(report.inserted, 0);
    assert_eq!(report.updated, 1);
    assert_eq!(table.len(), 1);
    assert_eq!(table.row(0).uri(), "u2");
}

#[test]
fn rows_are_saved_by_id() {
    let mut episodes = EpisodeTable::from_rows(vec![
        Episode::new(3, Some("a"), "u", None, None, 0, None, None, 1),
        Episode::new(5, Some("b"), "v", None, None, 0, None, None, 1),
    ]);
    let mut e = episodes.row(1).clone();
    e.set_played(Some(12));
    e.set_local_uri(Some("/d/b.mp3"));
    assert!(e.save(&mut episodes).is_ok());
    assert_eq!(episodes.row(1).played(), Some(12));
    assert_eq!(episodes.row(1).local_uri(), Some("/d/b.mp3"));
    assert_eq!(episodes.row(1).title(), Some("b"));
    assert_eq!(episodes.row(0).played(), None);
    let stranger = Episode::new(4, None, "w", None, None, 0, None, None, 1);
    assert!(stranger.save(&mut episodes).is_err());
    assert_eq!(episodes.len(), 2);

    let mut shows = ShowTable::from_rows(vec![Podcast::new(2, "t", "l", "d", None, 9)]);
    let mut p = shows.row(0).clone();
    p.set_favorite(true);
    assert!(p.save(&mut shows).is_ok());
    assert!(shows.row(0).favorite());
    assert!(Podcast::new(3, "t", "l", "d", None, 9).save(&mut shows).is_err());
}

#[test]
fn parsed_feeds_are_indexed_in_turn() {
    let mut shows = ShowTable::new();
    let mut episodes = EpisodeTable::new();
    let one = Feed::from_channel_source(hammond_data::feed::parse_channel(FEED).ok().unwrap(), 1);
    let other = FEED.replace("<title>Show</title>", "<title>Other</title>");
    let two = Feed::from_channel_source(hammond_data::feed::parse_channel(&other).ok().unwrap(), 2);
    let again = Feed::from_channel_source(hammond_data::feed::parse_channel(FEED).ok().unwrap(), 1);
    let reports = index_loop(&vec![one, two, again], &mut shows, &mut episodes, 50);
    assert_eq!(reports.len(), 3);
    let r: Vec<_> = reports.into_iter().map(|r| r.ok().unwrap()).collect();
    assert_eq!((r[0].show_id, r[0].show_inserted, r[0].episodes.inserted), (1, true, 3));
    assert_eq!((r[1].show_id, r[1].show_inserted, r[1].episodes.inserted), (2, true, 3));
    assert_eq!((r[2].show_id, r[2].show_inserted, r[2].episodes.unchanged), (1, false, 3));
    assert_eq!(shows.len(), 2);
    assert_eq!(episodes.len(), 6);
    assert_eq!(episodes.row(3).podcast_id(), 2);
    assert_eq!(episodes.row(5).id(), 6);
}

#[test]
fn unsubscribing_takes_episodes_and_source_along() {
    let mut sources = SourceTable::new();
    Source::from_url(&mut sources, "http://a.example/feed").ok().unwrap();
    Source::from_url(&mut sources, "http://b.example/feed").ok().unwrap();
    let mut shows = ShowTable::from_rows(vec![
        Podcast::new(10, "A", "l", "d", None, 1),
        Podcast::new(20, "B", "l", "d", None, 2),
    ]);
    let mut episodes = EpisodeTable::from_rows(vec![
        Episode::new(1, Some("a1"), "u", None, None, 0, None, None, 10),
        Episode::new(2, Some("b1"), "u", None, None, 0, None, None, 20),
        Episode::new(3, Some("a2"), "u", None, None, 0, None, None, 10),
        Episode::new(4, Some("b2"), "u", None, None, 0, None, None, 20),
    ]);
    assert!(delete_show(&mut shows, &mut episodes, &mut sources, 10));
    assert_eq!(shows.len(), 1);
    assert_eq!(shows.row(0).id(), 20);
    assert_eq!(episodes.len(), 2);
    assert_eq!(episodes.row(0).id(), 2);
    assert_eq!(episodes.row(1).id(), 4);
    assert_eq!(sources.len(), 1);
    assert_eq!(sources.row(0).uri(), "http://b.example/feed");
    assert!(!delete_show(&mut shows, &mut episodes, &mut sources, 10));
    assert_eq!((shows.len(), episodes.len(), sources.len()), (1, 2, 1));
    assert_eq!(
        cover_files("/c/Covers", 10),
        vec!["/c/Covers/10", "/c/Covers/10-64", "/c/Covers/10-128", "/c/Covers/10-256", "/c/Covers/10-512"]
    );
}

#[test]
fn full_show_table_fails_the_source_only() {
    let mut shows = ShowTable::from_rows(vec![Podcast::new(i32::MAX, "Taken", "l", "d", None, 9)]);
    let mut episodes = EpisodeTable::new();
    let r = process_source(
        Source::new(1, "u", None, None),
        Ok(response(200, Some("v1"), FEED)),
        &mut shows,
        &mut episodes,
        0,
    );
    assert!(matches!(r.result, Err(SourceError::OutOfIds)));
    assert!(r.save_source);
    assert_eq!(r.source.http_etag(), Some("v1"));
    assert_eq!(shows.len(), 1);
    assert_eq!(episodes.len(), 0);
    assert_eq!(collect_failures(&vec![r]), vec![(1, ErrorKind::Data)]);
}

fn two_jobs() -> Vec<Job> {
    let other = FEED.replace("<title>Show</title>", "<title>Other</title>");
    vec![
        Job { source: Source::new(1, "a", None, None), fetched: Ok(response(200, Some("e1"), FEED)) },
        Job { source: Source::new(2, "b", None, None), fetched: Ok(response(200, Some("e2"), &other)) },
        Job { source: Source::new(3, "c", None, None), fetched: Err(HttpError::ReqError("down".to_string())) },
    ]
}

#[test]
fn second_run_of_a_batch_writes_nothing() {
    let mut shows = ShowTable::new();
    let mut episodes = EpisodeTable::new();
    let first = pipeline(two_jobs(), &mut shows, &mut episodes, 100);
    let inserted: usize = first
        .iter()
        .filter_map(|r| r.result.as_ref().ok().and_then(|f| f.as_ref()))
        .map(|f| f.episodes.inserted)
        .sum();
    assert_eq!(inserted, 6);
    assert_eq!((shows.len(), episodes.len()), (2, 6));
    let titles: Vec<Option<String>> =
        (0..episodes.len()).map(|i| episodes.row(i).title().map(|s| s.to_string())).collect();
    let epochs: Vec<i32> = (0..episodes.len()).map(|i| episodes.row(i).epoch()).collect();

    let second = pipeline(two_jobs(), &mut shows, &mut episodes, 900);
    for report in second.iter().take(2) {
        let feed = report.result.as_ref().ok().unwrap().as_ref().unwrap();
        assert!(!feed.show_inserted);
        assert_eq!(feed.episodes.writes(), 0);
        assert_eq!(feed.episodes.unchanged, 3);
        assert!(feed.episodes.plan.iter().all(|s| matches!(s, IndexState::NotChanged)));
    }
    assert!(second[2].result.is_err());
    assert_eq!((shows.len(), episodes.len()), (2, 6));
    for i in 0..episodes.len() {
        assert_eq!(episodes.row(i).title().map(|s| s.to_string()), titles[i]);
        assert_eq!(episodes.row(i).epoch(), epochs[i]);
    }
}

#[test]
fn collector_gives_as_many_results_as_tasks() {
    let mut c: Collector<u8> = Collector::new(3);
    for n in [7, 8, 9, 10] {
        c.settle(n);
    }
    assert_eq!(c.into_results().ok().unwrap().len(), 3);
}
