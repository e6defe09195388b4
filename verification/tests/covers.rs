use hammond_data::cover_cache::{
    check_download_location, check_requester, deliver, finalize_download, plan_holder, CoverCache,
    DiskStart, DiskState, Finalize, HolderAction, LoadStart, Poll, PollStep,
};
use hammond_data::covers::{
    clean_unfinished_downloads, cleanup_entry, determin_cover_path,
    determin_cover_path_for_update, download_file_name, filename_for_download,
    is_cached_image_valid, mime_extension, staging_prefix, widget_size, Cleanup, DirEntry,
    ThumbSize,
};
use hammond_data::cover_load::{
    CoverLoad, JustAction, JustDownload, JustEvent, JustPhase, LoadAction, LoadEvent, Phase,
};
use hammond_data::errors::DownloadError;

#[test]
fn cover_paths() {
    assert_eq!(determin_cover_path("/cache/Covers", 7, None), "/cache/Covers/7");
    assert_eq!(determin_cover_path("/cache/Covers/", 7, Some(ThumbSize::Thumb64)), "/cache/Covers/7-64");
    assert_eq!(determin_cover_path("/c", 12, Some(ThumbSize::Thumb128)), "/c/12-128");
    assert_eq!(determin_cover_path("/c", 12, Some(ThumbSize::Thumb256)), "/c/12-256");
    assert_eq!(determin_cover_path("", -3, Some(ThumbSize::Thumb512)), "-3-512");
    assert_eq!(determin_cover_path_for_update("/c", 7), "/c/7-update");
    assert_eq!(staging_prefix(7), "7-pdcover.part");
}

#[test]
fn thumb_sizes() {
    assert_eq!(ThumbSize::Thumb64.pixels(), 64);
    assert_eq!(ThumbSize::Thumb512.pixels(), 512);
    assert_eq!(ThumbSize::Thumb64.hidpi(1), Some(ThumbSize::Thumb64));
    assert_eq!(ThumbSize::Thumb64.hidpi(2), Some(ThumbSize::Thumb128));
    assert_eq!(ThumbSize::Thumb256.hidpi(3), Some(ThumbSize::Thumb512));
    assert_eq!(ThumbSize::Thumb512.hidpi(2), None);
    assert_eq!(widget_size(ThumbSize::Thumb512, 2), ThumbSize::Thumb512);
    assert_eq!(widget_size(ThumbSize::Thumb128, 2), ThumbSize::Thumb256);
    assert_eq!(widget_size(ThumbSize::Thumb128, 1), ThumbSize::Thumb128);
}

#[test]
fn cover_is_valid_for_four_weeks() {
    let four_weeks = 4 * 7 * 24 * 3600;
    assert!(is_cached_image_valid(Some(1000), 1000));
    assert!(is_cached_image_valid(Some(1000), 1000 + four_weeks));
    assert!(!is_cached_image_valid(Some(1000), 1000 + four_weeks + 1));
    assert!(!is_cached_image_valid(None, 0));
    assert!(is_cached_image_valid(Some(2000), 1000));
    assert!(!is_cached_image_valid(Some(i64::MIN), i64::MAX));
    assert!(is_cached_image_valid(Some(i64::MAX), i64::MIN));
    assert!(!is_cached_image_valid(Some(-5), four_weeks));
    assert!(is_cached_image_valid(Some(-5), four_weeks - 5));
}

#[test]
fn leftovers_are_swept() {
    assert_eq!(cleanup_entry("/c/Covers/7-pdcover.partAbC", false, true), Cleanup::RemoveDirAll);
    assert_eq!(cleanup_entry("/c/Covers/7-pdcover.partAbC", true, false), Cleanup::Keep);
    assert_eq!(cleanup_entry("/c/Covers/7", false, true), Cleanup::Keep);
    assert_eq!(cleanup_entry("/c/Covers/.part", true, false), Cleanup::RemoveFile);
    assert_eq!(cleanup_entry(".part", true, false), Cleanup::RemoveFile);
    assert_eq!(cleanup_entry("/c/Covers/x.part", true, false), Cleanup::Keep);
    assert_eq!(cleanup_entry("/c/Covers/.part", false, false), Cleanup::Keep);
    assert_eq!(cleanup_entry("/c/Covers/7-64", true, false), Cleanup::Keep);
    let plan = clean_unfinished_downloads(&vec![
        DirEntry { path: "/c/7".to_string(), is_file: true, is_dir: false },
        DirEntry { path: "/c/9-pdcover.part1".to_string(), is_file: false, is_dir: true },
    ]);
    assert_eq!(plan, vec![Cleanup::Keep, Cleanup::RemoveDirAll]);
}

#[test]
fn download_gets_a_name() {
    assert_eq!(mime_extension(Some("image/jpeg")), ".jpeg");
    assert_eq!(mime_extension(Some("image/apng")), ".png");
    assert_eq!(mime_extension(Some("image/png")), ".png");
    assert_eq!(mime_extension(Some("image/avif")), ".avif");
    assert_eq!(mime_extension(Some("image/gif")), ".gif");
    assert_eq!(mime_extension(Some("image/svg")), ".svg");
    assert_eq!(mime_extension(Some("image/webp")), ".webp");
    assert_eq!(mime_extension(Some("text/html")), "");
    assert_eq!(mime_extension(None), "");
    assert_eq!(download_file_name(".png", Some("cover")), "cover.png");
    assert_eq!(download_file_name(".png", Some("")), "tmp-donwload.png");
    assert_eq!(download_file_name("", None), "tmp-donwload.bin");
    assert_eq!(filename_for_download(Some("image/jpeg"), "https://h.example/a/b/cover"), "cover.jpeg");
    assert_eq!(filename_for_download(Some("image/png"), "https://h.example/a/b/"), "tmp-donwload.png");
    assert_eq!(filename_for_download(None, "https://h.example"), "tmp-donwload");
    assert_eq!(filename_for_download(None, "https://h.example/c.jpg?x=1"), "c.jpg");
    assert_eq!(filename_for_download(Some("image/gif"), "mailto:a@b.example"), "tmp-donwload.bin.gif");
    assert_eq!(filename_for_download(Some("image/gif"), "no url"), "tmp-donwload.bin.gif");
}

#[test]
fn concurrent_loads_download_once() {
    let mut cache: CoverCache<String> = CoverCache::new();
    let mut acquired = 0;
    let mut waiting = 0;
    for _ in 0..5 {
        match cache.begin_load(true, 7, ThumbSize::Thumb64) {
            LoadStart::Acquired => acquired += 1,
            LoadStart::Wait => waiting += 1,
            other => panic!("unexpected {:?}", other),
        }
    }
    assert_eq!(acquired, 1);
    assert_eq!(waiting, 4);
    assert!(cache.cover_is_downloading(7));
    assert_eq!(cache.begin_load(true, 7, ThumbSize::Thumb128), LoadStart::Wait);
    assert_eq!(cache.begin_load(true, 8, ThumbSize::Thumb64), LoadStart::Acquired);
    cache.finish_load(7, Some((ThumbSize::Thumb64, "texture".to_string())));
    assert!(!cache.cover_is_downloading(7));
    for _ in 0..5 {
        assert_eq!(cache.begin_load(true, 7, ThumbSize::Thumb64), LoadStart::Cached);
        assert_eq!(cache.from_cache((7, ThumbSize::Thumb64)).map(|s| s.as_str()), Some("texture"));
    }
    assert!(!cache.cover_is_downloading(7));
    assert_eq!(cache.from_cache((7, ThumbSize::Thumb128)), None);
}

#[test]
fn failed_download_releases_the_lock() {
    let mut cache: CoverCache<u8> = CoverCache::new();
    assert_eq!(cache.begin_load(true, 1, ThumbSize::Thumb64), LoadStart::Acquired);
    cache.finish_load(1, None);
    assert!(!cache.cover_is_downloading(1));
    assert_eq!(cache.from_cache((1, ThumbSize::Thumb64)), None);
    assert_eq!(cache.begin_load(true, 1, ThumbSize::Thumb64), LoadStart::Acquired);
    assert_eq!(cache.begin_load(false, 1, ThumbSize::Thumb64), LoadStart::NoImage);
    assert!(cache.aquire_dl_lock(2));
    assert!(!cache.aquire_dl_lock(2));
    cache.drop_dl_lock(2);
    assert!(cache.aquire_dl_lock(2));
}

#[test]
fn distinct_covers_do_not_collide() {
    let mut cache: CoverCache<i32> = CoverCache::new();
    let sizes = [ThumbSize::Thumb64, ThumbSize::Thumb128, ThumbSize::Thumb256, ThumbSize::Thumb512];
    let ids = [i32::MIN, -1, 0, 1, i32::MAX];
    let mut n = 0;
    for id in ids {
        for s in sizes {
            cache.insert_texture((id, s), n);
            n += 1;
        }
    }
    let mut n = 0;
    for id in ids {
        for s in sizes {
            assert_eq!(cache.from_cache((id, s)), Some(&n));
            n += 1;
        }
    }
}

#[test]
fn disk_loads_are_single_flight_too() {
    let mut cache: CoverCache<u8> = CoverCache::new();
    let id = (3, ThumbSize::Thumb256);
    assert_eq!(cache.begin_disk_load(id), DiskStart::Acquired);
    assert!(cache.thumb_is_loading(id));
    assert_eq!(cache.begin_disk_load(id), DiskStart::Wait);
    assert_eq!(cache.begin_disk_load((3, ThumbSize::Thumb64)), DiskStart::Acquired);
    cache.finish_disk_load(id, Some(9));
    assert!(!cache.thumb_is_loading(id));
    assert_eq!(cache.begin_disk_load(id), DiskStart::Cached);
    assert_eq!(cache.from_cache(id), Some(&9));
    cache.finish_disk_load((3, ThumbSize::Thumb64), None);
    assert_eq!(cache.begin_disk_load((3, ThumbSize::Thumb64)), DiskStart::Acquired);
}

fn disk(valid: bool, thumb_loaded: bool, cover_exists: bool, thumb_exists: bool) -> DiskState {
    DiskState { valid, thumb_loaded, cover_exists, thumb_exists }
}

#[test]
fn holder_decides_by_what_is_on_disk() {
    assert_eq!(plan_holder(&disk(false, true, true, true)), HolderAction::Redownload);
    assert_eq!(plan_holder(&disk(false, false, false, false)), HolderAction::Redownload);
    assert_eq!(plan_holder(&disk(true, true, true, true)), HolderAction::ServeFromDisk);
    assert_eq!(plan_holder(&disk(true, false, true, false)), HolderAction::Regenerate);
    assert_eq!(plan_holder(&disk(true, false, false, false)), HolderAction::Download);
    assert_eq!(plan_holder(&disk(true, false, false, true)), HolderAction::Download);
    assert_eq!(plan_holder(&disk(true, false, true, true)), HolderAction::GiveUp);
}

#[test]
fn stale_cover_is_downloaded_again_once() {
    let four_weeks = 4 * 7 * 24 * 3600;
    let valid = is_cached_image_valid(Some(0), four_weeks + 1);
    let mut cache: CoverCache<u8> = CoverCache::new();
    let mut redownloads = 0;
    for _ in 0..3 {
        if cache.begin_load(true, 7, ThumbSize::Thumb64) == LoadStart::Acquired {
            if plan_holder(&disk(valid, true, true, true)) == HolderAction::Redownload {
                redownloads += 1;
            }
        }
    }
    assert_eq!(redownloads, 1);
}

#[test]
fn wait_times_out_after_thirty_seconds() {
    let mut p = Poll::new();
    for _ in 0..120 {
        assert_eq!(p.tick(true), PollStep::Again);
    }
    assert_eq!(p.tick(true), PollStep::TimedOut);
    assert_eq!(p.tick(false), PollStep::TimedOut);
    let mut p = Poll::new();
    assert_eq!(p.tick(true), PollStep::Again);
    assert_eq!(p.tick(false), PollStep::Ready);
    let mut p = Poll::new();
    for _ in 0..119 {
        p.tick(true);
    }
    assert_eq!(p.tick(false), PollStep::Ready);
}

#[test]
fn download_needs_a_location() {
    assert_eq!(check_download_location(None), Err(DownloadError::NoImageLocation));
    assert_eq!(check_download_location(Some("")), Err(DownloadError::NoImageLocation));
    assert_eq!(check_download_location(Some("http://i")), Ok(()));
    assert_eq!(finalize_download(true, false), Finalize::MoveOnly);
    assert_eq!(finalize_download(true, true), Finalize::MoveOnly);
    assert_eq!(finalize_download(false, true), Finalize::CacheThenMove);
    assert_eq!(finalize_download(false, false), Finalize::Fail);
}

#[test]
fn image_for_a_vanished_widget_is_not_needed() {
    assert_eq!(check_requester(true), Ok(()));
    assert_eq!(check_requester(false), Err(DownloadError::NoLongerNeeded));
    assert_eq!(deliver(Ok(()), true), Ok(()));
    assert_eq!(deliver(Ok(()), false), Err(DownloadError::NoLongerNeeded));
    assert_eq!(deliver(Err(DownloadError::TimedOut), true), Err(DownloadError::TimedOut));
    assert_eq!(deliver(Err(DownloadError::Failed), false), Err(DownloadError::Failed));
}

#[test]
fn load_downloads_an_absent_cover() {
    let mut cache: CoverCache<String> = CoverCache::new();
    let mut load = CoverLoad::new(7, ThumbSize::Thumb64);
    assert_eq!(load.phase(), Phase::Idle);
    assert_eq!(load.step(&mut cache, LoadEvent::Start { has_image: true }), LoadAction::CheckValidity);
    assert!(cache.cover_is_downloading(7));
    assert_eq!(load.step(&mut cache, LoadEvent::Validity(true)), LoadAction::ReadThumb);
    assert_eq!(load.step(&mut cache, LoadEvent::ThumbRead(None)), LoadAction::ProbeFiles);
    assert_eq!(
        load.step(&mut cache, LoadEvent::Files { cover_exists: false, thumb_exists: false }),
        LoadAction::Fetch { replace: false }
    );
    assert_eq!(load.phase(), Phase::Fetching);
    assert!(cache.cover_is_downloading(7));
    assert_eq!(
        load.step(&mut cache, LoadEvent::Fetched(Ok("img".to_string()))),
        LoadAction::MoveIntoPlace { replace: false }
    );
    assert_eq!(load.phase(), Phase::Moving);
    assert!(cache.cover_is_downloading(7));
    assert_eq!(cache.from_cache((7, ThumbSize::Thumb64)).map(|s| s.as_str()), Some("img"));
    assert_eq!(load.step(&mut cache, LoadEvent::Moved(Ok(()))), LoadAction::Serve);
    assert!(load.is_finished());
    assert!(!cache.cover_is_downloading(7));
    assert_eq!(cache.from_cache((7, ThumbSize::Thumb64)).map(|s| s.as_str()), Some("img"));
    assert_eq!(load.step(&mut cache, LoadEvent::Slept), LoadAction::Ignore);
}

#[test]
fn load_replaces_a_stale_cover() {
    let mut cache: CoverCache<u8> = CoverCache::new();
    let mut load = CoverLoad::new(7, ThumbSize::Thumb64);
    load.step(&mut cache, LoadEvent::Start { has_image: true });
    assert_eq!(load.step(&mut cache, LoadEvent::Validity(false)), LoadAction::Fetch { replace: true });
    assert_eq!(
        load.step(&mut cache, LoadEvent::Fetched(Err(DownloadError::NoImageLocation))),
        LoadAction::Fail(DownloadError::NoImageLocation)
    );
    assert!(load.is_finished());
    assert!(!cache.cover_is_downloading(7));
    assert_eq!(cache.from_cache((7, ThumbSize::Thumb64)), None);
}

#[test]
fn load_serves_a_fresh_thumbnail_from_disk() {
    let mut cache: CoverCache<u8> = CoverCache::new();
    let mut load = CoverLoad::new(7, ThumbSize::Thumb128);
    load.step(&mut cache, LoadEvent::Start { has_image: true });
    load.step(&mut cache, LoadEvent::Validity(true));
    assert_eq!(load.step(&mut cache, LoadEvent::ThumbRead(Some(4))), LoadAction::Serve);
    assert!(!cache.cover_is_downloading(7));
    assert_eq!(cache.from_cache((7, ThumbSize::Thumb128)), Some(&4));
    let mut again = CoverLoad::new(7, ThumbSize::Thumb128);
    assert_eq!(again.step(&mut cache, LoadEvent::Start { has_image: true }), LoadAction::Serve);
    assert!(again.is_finished());
}

#[test]
fn load_regenerates_missing_thumbnails_or_gives_up() {
    let mut cache: CoverCache<u8> = CoverCache::new();
    let mut load = CoverLoad::new(7, ThumbSize::Thumb64);
    load.step(&mut cache, LoadEvent::Start { has_image: true });
    load.step(&mut cache, LoadEvent::Validity(true));
    load.step(&mut cache, LoadEvent::ThumbRead(None));
    assert_eq!(
        load.step(&mut cache, LoadEvent::Files { cover_exists: true, thumb_exists: false }),
        LoadAction::MakeThumbs
    );
    assert_eq!(load.phase(), Phase::MakingThumbs);
    assert!(cache.cover_is_downloading(7));
    assert_eq!(load.step(&mut cache, LoadEvent::Fetched(Ok(1))), LoadAction::Ignore);
    assert_eq!(load.step(&mut cache, LoadEvent::ThumbsMade(Ok(1))), LoadAction::Serve);
    assert!(load.is_finished());
    assert!(!cache.cover_is_downloading(7));
    assert_eq!(cache.from_cache((7, ThumbSize::Thumb64)), Some(&1));
    let mut load = CoverLoad::new(9, ThumbSize::Thumb64);
    load.step(&mut cache, LoadEvent::Start { has_image: true });
    load.step(&mut cache, LoadEvent::Validity(true));
    load.step(&mut cache, LoadEvent::ThumbRead(None));
    load.step(&mut cache, LoadEvent::Files { cover_exists: true, thumb_exists: false });
    assert_eq!(
        load.step(&mut cache, LoadEvent::ThumbsMade(Err(DownloadError::Failed))),
        LoadAction::Fail(DownloadError::Failed)
    );
    assert!(!cache.cover_is_downloading(9));
    assert_eq!(cache.from_cache((9, ThumbSize::Thumb64)), None);
    let mut load = CoverLoad::new(8, ThumbSize::Thumb64);
    load.step(&mut cache, LoadEvent::Start { has_image: true });
    load.step(&mut cache, LoadEvent::Validity(true));
    load.step(&mut cache, LoadEvent::ThumbRead(None));
    assert_eq!(
        load.step(&mut cache, LoadEvent::Files { cover_exists: true, thumb_exists: true }),
        LoadAction::Fail(DownloadError::Failed)
    );
    assert!(!cache.cover_is_downloading(8));
}

#[test]
fn load_without_image_fails_for_good() {
    let mut cache: CoverCache<u8> = CoverCache::new();
    let mut load = CoverLoad::new(7, ThumbSize::Thumb64);
    assert_eq!(
        load.step(&mut cache, LoadEvent::Start { has_image: false }),
        LoadAction::Fail(DownloadError::NoImageLocation)
    );
    assert!(load.is_finished());
    assert!(!cache.cover_is_downloading(7));
}

#[test]
fn waiting_loads_are_served_by_the_holder() {
    let mut cache: CoverCache<String> = CoverCache::new();
    let mut holder = CoverLoad::new(7, ThumbSize::Thumb64);
    holder.step(&mut cache, LoadEvent::Start { has_image: true });
    let mut waiters: Vec<CoverLoad> = (0..4).map(|_| CoverLoad::new(7, ThumbSize::Thumb64)).collect();
    for w in waiters.iter_mut() {
        assert_eq!(w.step(&mut cache, LoadEvent::Start { has_image: true }), LoadAction::Sleep);
        assert_eq!(w.step(&mut cache, LoadEvent::Slept), LoadAction::Sleep);
        assert_eq!(w.phase(), Phase::WaitingForDownload);
    }
    holder.step(&mut cache, LoadEvent::Validity(false));
    assert_eq!(
        holder.step(&mut cache, LoadEvent::Fetched(Ok("img".to_string()))),
        LoadAction::MoveIntoPlace { replace: true }
    );
    for w in waiters.iter_mut() {
        assert_eq!(w.step(&mut cache, LoadEvent::Slept), LoadAction::Sleep);
    }
    assert_eq!(holder.step(&mut cache, LoadEvent::Moved(Ok(()))), LoadAction::Serve);
    for w in waiters.iter_mut() {
        assert_eq!(w.step(&mut cache, LoadEvent::Slept), LoadAction::Serve);
        assert!(w.is_finished());
        assert_eq!(cache.from_cache((7, ThumbSize::Thumb64)).map(|s| s.as_str()), Some("img"));
    }
}

#[test]
fn waiting_load_reads_another_size_from_disk() {
    let mut cache: CoverCache<u8> = CoverCache::new();
    let mut holder = CoverLoad::new(7, ThumbSize::Thumb64);
    holder.step(&mut cache, LoadEvent::Start { has_image: true });
    let mut a = CoverLoad::new(7, ThumbSize::Thumb256);
    let mut b = CoverLoad::new(7, ThumbSize::Thumb256);
    a.step(&mut cache, LoadEvent::Start { has_image: true });
    b.step(&mut cache, LoadEvent::Start { has_image: true });
    holder.step(&mut cache, LoadEvent::Validity(false));
    holder.step(&mut cache, LoadEvent::Fetched(Ok(1)));
    holder.step(&mut cache, LoadEvent::Moved(Ok(())));
    assert_eq!(a.step(&mut cache, LoadEvent::Slept), LoadAction::ReadThumb);
    assert_eq!(a.phase(), Phase::ReadingThumb);
    assert_eq!(b.step(&mut cache, LoadEvent::Slept), LoadAction::Sleep);
    assert_eq!(b.phase(), Phase::WaitingForThumb);
    assert_eq!(b.step(&mut cache, LoadEvent::Slept), LoadAction::Sleep);
    assert_eq!(a.step(&mut cache, LoadEvent::ThumbRead(Some(9))), LoadAction::Serve);
    assert_eq!(b.step(&mut cache, LoadEvent::Slept), LoadAction::Serve);
    let mut c = CoverLoad::new(7, ThumbSize::Thumb512);
    c.step(&mut cache, LoadEvent::Start { has_image: true });
    assert_eq!(c.step(&mut cache, LoadEvent::Validity(true)), LoadAction::ReadThumb);
}

#[test]
fn waiting_load_times_out() {
    let mut cache: CoverCache<u8> = CoverCache::new();
    let mut holder = CoverLoad::new(7, ThumbSize::Thumb64);
    holder.step(&mut cache, LoadEvent::Start { has_image: true });
    let mut w = CoverLoad::new(7, ThumbSize::Thumb64);
    assert_eq!(w.step(&mut cache, LoadEvent::Start { has_image: true }), LoadAction::Sleep);
    for _ in 0..120 {
        assert_eq!(w.step(&mut cache, LoadEvent::Slept), LoadAction::Sleep);
    }
    assert_eq!(w.step(&mut cache, LoadEvent::Slept), LoadAction::Fail(DownloadError::TimedOut));
    assert!(w.is_finished());
    assert!(cache.cover_is_downloading(7));
}

#[test]
fn failed_move_fails_the_load_and_frees_the_lock() {
    let mut cache: CoverCache<u8> = CoverCache::new();
    let mut load = CoverLoad::new(7, ThumbSize::Thumb64);
    load.step(&mut cache, LoadEvent::Start { has_image: true });
    load.step(&mut cache, LoadEvent::Validity(false));
    load.step(&mut cache, LoadEvent::Fetched(Ok(3)));
    assert_eq!(
        load.step(&mut cache, LoadEvent::Moved(Err(DownloadError::Failed))),
        LoadAction::Fail(DownloadError::Failed)
    );
    assert!(load.is_finished());
    assert!(!cache.cover_is_downloading(7));
}

#[test]
fn just_download_is_single_flight() {
    let mut cache: CoverCache<u8> = CoverCache::new();
    let mut first = JustDownload::new(7);
    let mut second = JustDownload::new(7);
    assert_eq!(first.just_download_step(&mut cache, JustEvent::Start), JustAction::Fetch);
    assert_eq!(first.phase(), JustPhase::Fetching);
    assert!(cache.cover_is_downloading(7));
    assert_eq!(second.just_download_step(&mut cache, JustEvent::Start), JustAction::Sleep);
    assert_eq!(second.just_download_step(&mut cache, JustEvent::Slept), JustAction::Sleep);
    assert_eq!(second.just_download_step(&mut cache, JustEvent::Start), JustAction::Ignore);
    assert_eq!(first.just_download_step(&mut cache, JustEvent::Fetched(Ok(()))), JustAction::Done);
    assert!(!cache.cover_is_downloading(7));
    assert_eq!(cache.from_cache((7, ThumbSize::Thumb64)), None);
    assert_eq!(second.just_download_step(&mut cache, JustEvent::Slept), JustAction::Done);
    assert_eq!(second.phase(), JustPhase::Finished);

    let mut failing = JustDownload::new(8);
    failing.just_download_step(&mut cache, JustEvent::Start);
    assert_eq!(
        failing.just_download_step(&mut cache, JustEvent::Fetched(Err(DownloadError::NoImageLocation))),
        JustAction::Fail(DownloadError::NoImageLocation)
    );
    assert!(!cache.cover_is_downloading(8));

    let mut holder = JustDownload::new(9);
    holder.just_download_step(&mut cache, JustEvent::Start);
    let mut waiter = JustDownload::new(9);
    assert_eq!(waiter.just_download_step(&mut cache, JustEvent::Start), JustAction::Sleep);
    for _ in 0..120 {
        assert_eq!(waiter.just_download_step(&mut cache, JustEvent::Slept), JustAction::Sleep);
    }
    assert_eq!(
        waiter.just_download_step(&mut cache, JustEvent::Slept),
        JustAction::Fail(DownloadError::TimedOut)
    );
}
