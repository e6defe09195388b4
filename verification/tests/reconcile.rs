use hammond_data::feed::{parse_channel, parse_i32, RawItem};
use hammond_data::parser::{parse_episode, NewEpisode};
use hammond_data::reconcile::{EpisodeTable, IndexState, Outcome};

fn item(title: &str, url: &str, guid: &str) -> RawItem {
    RawItem {
        title: Some(title.to_string()),
        link: None,
        description: Some("about".to_string()),
        enclosure: Some((url.to_string(), "1024".to_string())),
        guid: Some(guid.to_string()),
        pub_date: Some("Wed, 18 Feb 2015 23:16:09 GMT".to_string()),
    }
}

fn episode(title: &str, url: &str, guid: &str) -> NewEpisode {
    parse_episode(&item(title, url, guid), 1, 0).ok().unwrap()
}

#[test]
fn parse_i32_reads_what_std_reads() {
    for text in ["0", "1024", "-7", "+7", "2147483647", "-2147483648", "2147483648", "", "-", "+", "1 ", " 1", "1a", "00012"] {
        assert_eq!(parse_i32(text), text.parse::<i32>().ok(), "{:?}", text);
    }
}

#[test]
fn parsed_episode_takes_epoch_from_date() {
    let e = episode("one", "http://x/1.mp3", "g1");
    assert_eq!(e.epoch, 1424301369);
    assert_eq!(e.length, Some(1024));
    assert_eq!(e.uri, "http://x/1.mp3");
    assert_eq!(e.title.as_deref(), Some("one"));
}

#[test]
fn unreadable_date_falls_back_to_now() {
    let mut it = item("one", "http://x/1.mp3", "g1");
    it.pub_date = Some("not a date".to_string());
    let e = parse_episode(&it, 1, 77).ok().unwrap();
    assert_eq!(e.epoch, 77);
    it.pub_date = None;
    let e = parse_episode(&it, 1, 78).ok().unwrap();
    assert_eq!(e.epoch, 78);
}

#[test]
fn item_without_enclosure_is_refused() {
    let mut it = item("one", "http://x/1.mp3", "g1");
    it.enclosure = None;
    assert!(parse_episode(&it, 1, 0).is_err());
}

#[test]
fn second_run_writes_nothing() {
    let mut table = EpisodeTable::new();
    for t in ["a", "b", "c"] {
        let (state, what) = table.index_episode(episode(t, "http://x/1.mp3", "g"));
        assert!(matches!(state, IndexState::Index(_)));
        assert_eq!(what, Outcome::Inserted);
    }
    assert_eq!(table.len(), 3);
    for t in ["a", "b", "c"] {
        let (state, what) = table.index_episode(episode(t, "http://x/1.mp3", "g"));
        assert!(matches!(state, IndexState::NotChanged));
        assert_eq!(what, Outcome::Unchanged);
    }
    assert_eq!(table.len(), 3);
}

#[test]
fn same_title_other_guid_is_an_update() {
    let mut table = EpisodeTable::new();
    table.index_episode(episode("a", "http://x/1.mp3", "g1"));
    let (state, what) = table.index_episode(episode("a", "http://x/1.mp3", "g2"));
    assert_eq!(what, Outcome::Updated);
    match state {
        IndexState::Update((e, rowid)) => {
            assert_eq!(rowid, 1);
            assert_eq!(e.guid.as_deref(), Some("g2"));
        }
        _ => panic!("expected an update"),
    }
    assert_eq!(table.len(), 1);
    assert_eq!(table.row(0).guid(), Some("g2"));
}

#[test]
fn channel_is_read_by_the_xml_reader() {
    let doc = "<rss version=\"2.0\"><channel><title>T</title><link>http://l</link><description>D</description><image><url>http://i</url><title>T</title><link>http://l</link></image><item><title>e1</title><enclosure url=\"http://m/1.mp3\" length=\"5\" type=\"audio/mpeg\"/><guid>g1</guid></item></channel></rss>";
    let c = parse_channel(doc).ok().unwrap();
    assert_eq!(c.title, "T");
    assert_eq!(c.link, "http://l");
    assert_eq!(c.description, "D");
    assert_eq!(c.image_url.as_deref(), Some("http://i"));
    assert_eq!(c.items.len(), 1);
    assert_eq!(c.items[0].title.as_deref(), Some("e1"));
    assert_eq!(c.items[0].enclosure, Some(("http://m/1.mp3".to_string(), "5".to_string())));
    assert_eq!(c.items[0].guid.as_deref(), Some("g1"));
    assert!(parse_channel("this is no feed").is_err());
}
