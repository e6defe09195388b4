use hammond_data::application::{Action, PdApplication};
use hammond_data::downloads::{download_paths, record_outcome, Effect, Event, Manager, TaskState};
use hammond_data::headerbar::{
    normalize_url, on_add_clicked, on_entry_changed, EntryProblem, EntryStyle,
};
use hammond_data::models::{Episode, Source};
use hammond_data::sources::SourceTable;
use hammond_data::stacks::{determine_state, update_podcasts, update_widget, Child, State};
use hammond_data::widgets::{
    announced_size, date_label, day_label, determine_buttons_state, duration_minutes,
    on_download_clicked, shows_year, size_label, EpisodeState,
};

fn episode() -> Episode {
    Episode::new(7, Some("t"), "http://m/1.mp3", None, None, 0, None, None, 1)
}

#[test]
fn download_runs_to_completion() {
    let mut m = Manager::new();
    assert!(matches!(m.state(7), TaskState::NotStarted));
    assert!(!m.is_downloading(7));
    assert!(m.add(7));
    assert!(matches!(m.state(7), TaskState::Queued));
    assert!(m.is_downloading(7));
    assert!(!m.add(7));
    assert_eq!(m.handle(7, Event::Begin { total_bytes: Some(100) }), Some(Effect::Nothing));
    assert_eq!(m.handle(7, Event::Progress { bytes: 40 }), Some(Effect::Nothing));
    assert_eq!(m.handle(7, Event::Progress { bytes: 60 }), Some(Effect::Nothing));
    match m.state(7) {
        TaskState::InProgress { bytes_downloaded, total_bytes } => {
            assert_eq!(bytes_downloaded, 100);
            assert_eq!(total_bytes, 100);
        }
        _ => panic!("not in progress"),
    }
    assert!(!m.add(7));
    assert_eq!(
        m.handle(7, Event::Finish { local_path: "/d/show/1.mp3".to_string() }),
        Some(Effect::MoveIntoPlace)
    );
    assert!(!m.is_downloading(7));
    let mut e = episode();
    assert!(record_outcome(&mut e, &m.state(7)));
    assert_eq!(e.local_uri(), Some("/d/show/1.mp3"));
    assert!(m.remove_finished(7));
    assert!(matches!(m.state(7), TaskState::NotStarted));
    assert!(!m.remove_finished(7));
}

#[test]
fn cancel_while_in_progress() {
    let mut m = Manager::new();
    m.add(7);
    m.handle(7, Event::Begin { total_bytes: None });
    match m.state(7) {
        TaskState::InProgress { bytes_downloaded, total_bytes } => {
            assert_eq!((bytes_downloaded, total_bytes), (0, 0));
        }
        _ => panic!("not in progress"),
    }
    m.handle(7, Event::Progress { bytes: 10 });
    assert_eq!(m.handle(7, Event::Cancel), Some(Effect::RemovePartial));
    assert!(matches!(m.state(7), TaskState::Cancelled));
    assert_eq!(m.handle(7, Event::Progress { bytes: 10 }), None);
    assert_eq!(m.handle(7, Event::Finish { local_path: "/d/1.mp3".to_string() }), None);
    assert_eq!(m.handle(7, Event::Cancel), None);
    assert!(matches!(m.state(7), TaskState::Cancelled));
    let mut e = episode();
    assert!(!record_outcome(&mut e, &m.state(7)));
    assert_eq!(e.local_uri(), None);
    assert!(!m.cancel(7));
    assert!(m.add(7));
    assert!(m.cancel(7));
}

#[test]
fn failed_download_leaves_the_episode_alone() {
    let mut m = Manager::new();
    m.add(1);
    m.add(2);
    m.handle(1, Event::Begin { total_bytes: Some(5) });
    assert_eq!(m.handle(1, Event::Fail { reason: "disk full".to_string() }), Some(Effect::RemovePartial));
    match m.state(1) {
        TaskState::Failed { reason } => assert_eq!(reason, "disk full"),
        _ => panic!("not failed"),
    }
    assert!(matches!(m.state(2), TaskState::Queued));
    let mut e = episode();
    e.set_local_uri(Some("old"));
    assert!(!record_outcome(&mut e, &m.state(1)));
    assert_eq!(e.local_uri(), Some("old"));
    assert_eq!(m.handle(3, Event::Begin { total_bytes: None }), None);
    assert_eq!(m.handle(3, Event::Fail { reason: "x".to_string() }), None);
    assert!(matches!(m.state(3), TaskState::NotStarted));
}

#[test]
fn progress_never_overflows() {
    let mut m = Manager::new();
    m.add(1);
    m.handle(1, Event::Begin { total_bytes: None });
    m.handle(1, Event::Progress { bytes: u64::MAX - 1 });
    m.handle(1, Event::Progress { bytes: 5 });
    match m.state(1) {
        TaskState::InProgress { bytes_downloaded, .. } => assert_eq!(bytes_downloaded, u64::MAX),
        _ => panic!("not in progress"),
    }
}

#[test]
fn download_is_staged_beside_its_place() {
    let (staged, place) = download_paths("/d/show", "1.mp3");
    assert_eq!(staged, "/d/show/1.mp3.part");
    assert_eq!(place, "/d/show/1.mp3");
    let (staged, place) = download_paths("/d/show/", "1.mp3");
    assert_eq!(staged, "/d/show/1.mp3.part");
    assert_eq!(place, "/d/show/1.mp3");
}

#[test]
fn episode_row_states() {
    assert_eq!(determine_buttons_state(false, true, true), EpisodeState::NoUri);
    assert_eq!(determine_buttons_state(true, true, true), EpisodeState::InProgress);
    assert_eq!(determine_buttons_state(true, false, true), EpisodeState::Playable);
    assert_eq!(determine_buttons_state(true, false, false), EpisodeState::NotDownloaded);
    for s in [EpisodeState::NoUri, EpisodeState::InProgress, EpisodeState::Playable, EpisodeState::NotDownloaded] {
        let v = s.visible();
        let shown = [v.cancel, v.play, v.download, v.text_only == Some(true)];
        assert_eq!(shown.iter().filter(|b| **b).count(), 1);
    }
    let v = EpisodeState::InProgress.visible();
    assert!(v.cancel && v.local_size && v.size_separator);
    assert_eq!(v.total_size, Some(true));
    let v = EpisodeState::Playable.visible();
    assert!(v.play && !v.local_size);
    assert_eq!(EpisodeState::NotDownloaded.visible().total_size, None);
}

#[test]
fn download_button_starts_a_task() {
    let mut m = Manager::new();
    assert!(matches!(on_download_clicked(&mut m, 4), Some(Action::RefreshEpisodesViewBGR)));
    assert!(m.is_downloading(4));
    assert!(on_download_clicked(&mut m, 4).is_none());
}

#[test]
fn labels() {
    assert_eq!(duration_minutes(None), None);
    assert_eq!(duration_minutes(Some(0)), None);
    assert_eq!(duration_minutes(Some(59)), None);
    assert_eq!(duration_minutes(Some(60)), Some(1));
    assert_eq!(duration_minutes(Some(125)), Some(2));
    assert_eq!(duration_minutes(Some(-59)), None);
    assert_eq!(duration_minutes(Some(-125)), Some(-2));
    assert_eq!(duration_minutes(Some(i32::MAX)), Some(35791394));
    assert_eq!(size_label(None), None);
    assert_eq!(size_label(Some(0)), None);
    assert_eq!(size_label(Some(-1)), None);
    assert_eq!(size_label(Some(1)).as_deref(), Some("1 B"));
    assert_eq!(size_label(Some(1023)).as_deref(), Some("1023 B"));
    assert_eq!(size_label(Some(1024)).as_deref(), Some("1 KB"));
    assert_eq!(size_label(Some(5 * 1024 * 1024)).as_deref(), Some("5 MB"));
    assert_eq!(announced_size(0), Some(0));
    assert_eq!(announced_size(2_147_483_647), Some(i32::MAX));
    assert_eq!(announced_size(2_147_483_648), None);
    assert!(shows_year(2015, 2016));
    assert!(!shows_year(2015, 2015));
    assert_eq!(date_label(1424301369, 2016), "18 Feb 2015");
    assert_eq!(date_label(1424301369, 2015), "18 Feb");
    assert_eq!(date_label(0, 1970), "1 Jan");
    assert_eq!(date_label(0, 2000), "1 Jan 1970");
    assert_eq!(date_label(-1, 1970), "31 Dec 1969");
    assert_eq!(day_label(" 1 Jan"), "1 Jan");
}

#[test]
fn typed_text_becomes_an_address() {
    assert_eq!(normalize_url("feed.example/rss"), "http://feed.example/rss");
    assert_eq!(normalize_url("http://feed.example/rss"), "http://feed.example/rss");
    assert_eq!(normalize_url("https://feed.example/rss"), "https://feed.example/rss");
    assert_eq!(normalize_url(""), "http://");
    assert_eq!(normalize_url("ftp://x"), "http://ftp://x");
    let r = on_add_clicked("podcasts.apple.com/us/podcast/id1");
    assert_eq!(r.url, "http://podcasts.apple.com/us/podcast/id1");
    assert!(r.resolve_itunes);
    assert!(on_add_clicked("https://itunes.com/x").resolve_itunes);
    let r = on_add_clicked("https://feed.example/rss");
    assert!(!r.resolve_itunes);
    assert_eq!(r.url, "https://feed.example/rss");
}

#[test]
fn entry_reacts_to_the_text() {
    let mut sources = SourceTable::new();
    Source::from_url(&mut sources, "http://feed.example/rss").ok().unwrap();
    assert_eq!(on_entry_changed("", &sources), EntryStyle::Neutral { sensitive: false });
    assert_eq!(on_entry_changed("http://new.example/rss", &sources), EntryStyle::Neutral { sensitive: true });
    assert_eq!(on_entry_changed("new.example/rss", &sources), EntryStyle::Neutral { sensitive: true });
    assert_eq!(
        on_entry_changed("feed.example/rss", &sources),
        EntryStyle::Error(EntryProblem::AlreadySubscribed)
    );
    assert_eq!(
        on_entry_changed("http://FEED.example/rss", &sources),
        EntryStyle::Error(EntryProblem::AlreadySubscribed)
    );
    assert_eq!(on_entry_changed("http://", &sources), EntryStyle::Error(EntryProblem::InvalidUrl));
    assert_eq!(on_entry_changed("a b:c", &sources), EntryStyle::Error(EntryProblem::InvalidUrl));
    let e = EntryStyle::Error(EntryProblem::InvalidUrl);
    assert!(e.error());
    assert!(!e.sensitive());
    assert_eq!(e.icon_name(), Some("dialog-error-symbolic"));
    assert_eq!(EntryProblem::InvalidUrl.tooltip(), "Invalid URL");
    assert_eq!(EntryProblem::AlreadySubscribed.tooltip(), "You are already subscribed to this show");
    let n = EntryStyle::Neutral { sensitive: true };
    assert!(!n.error());
    assert!(n.sensitive());
    assert_eq!(n.icon_name(), None);
}

#[test]
fn stack_pages() {
    assert_eq!(determine_state(true), State::Populated);
    assert_eq!(determine_state(false), State::Empty);
    assert_eq!(update_podcasts(true, Child::Widget), Child::Empty);
    assert_eq!(update_podcasts(false, Child::Widget), Child::Widget);
    assert_eq!(update_podcasts(false, Child::Podcasts), Child::Podcasts);
    assert_eq!(update_podcasts(false, Child::Empty), Child::Podcasts);
    assert_eq!(update_widget("GtkBox"), None);
    assert_eq!(update_widget("12"), Some(12));
    assert_eq!(update_widget("x"), None);
}

#[test]
fn application_remembers_marks() {
    let mut app = PdApplication::new();
    assert!(!app.is_show_marked_delete(3));
    assert!(app.is_show_marked_mark(3));
    assert_eq!(app.do_action(&Action::RemoveShow(3), 0), None);
    assert_eq!(app.do_action(&Action::RemoveShow(3), 0), None);
    assert_eq!(app.do_action(&Action::RemoveShow(4), 0), None);
    assert!(app.is_show_marked_delete(3));
    assert!(!app.is_show_marked_delete(3));
    app.undo_remove_show(4);
    assert!(!app.is_show_marked_delete(4));
    app.undo_mark_all(5);
    app.undo_mark_all(5);
    assert!(!app.is_show_marked_mark(5));
    assert!(app.is_show_marked_mark(5));
    app.do_action(&Action::RemoveShow(8), 0);
    app.do_action(&Action::RemoveShow(9), 0);
    app.do_action(&Action::RefreshAllViews, 0);
    let mut ids: Vec<i32> = app.shutdown().into_iter().collect();
    ids.sort();
    assert_eq!(ids, vec![8, 9]);
    assert!(app.shutdown().is_empty());
}

#[test]
fn suspend_inhibitor_cookie() {
    let mut app = PdApplication::new();
    assert_eq!(app.do_action(&Action::UninhibitSuspend, 0), None);
    assert_eq!(app.do_action(&Action::InhibitSuspend, 11), None);
    assert_eq!(app.do_action(&Action::InhibitSuspend, 12), Some(11));
    assert_eq!(app.do_action(&Action::UninhibitSuspend, 0), Some(12));
    assert_eq!(app.do_action(&Action::UninhibitSuspend, 0), None);
}
