//! One request for a cover, from its start to the image or the failure.
//!
//! The request alternates between decisions, taken here, and work that only
//! the surrounding program can do: sleeping, looking at the disk, reading a
//! thumbnail, scaling, downloading, moving a file. Each step takes what the
//! last piece of work brought and says what to do next.

use crate::cover_cache::{
    after_finish, after_sleep, after_start, disk_start, holder_action, load_start, plan_holder,
    poll_step, CoverCache, CoverCacheView, DiskStart, DiskState, HolderAction, LoadStart, Poll,
    PollStep,
};
use crate::covers::{CoverId, ThumbSize};
use crate::errors::DownloadError;
use vstd::prelude::*;

verus! {

/// Where a request for a cover stands.
#[derive(Clone, Copy, PartialEq, Eq, Structural, Debug)]
pub enum Phase {
    /// Not begun.
    Idle,
    /// Another request downloads the cover; this one sleeps and polls.
    WaitingForDownload,
    /// Holding the download lock; the age of the cover on disk is asked for.
    CheckingValidity,
    /// Holding the download lock; the thumbnail is being read from disk.
    ReadingOwnThumb,
    /// Holding the download lock; the files on disk are looked for.
    ProbingFiles,
    /// Holding the download lock; the cover is being downloaded and its
    /// thumbnails made.
    Fetching,
    /// Holding the download lock; the image is in memory and the staged
    /// cover is being moved into place.
    Moving,
    /// Holding the download lock; the thumbnails are being made from the
    /// cover on disk.
    MakingThumbs,
    /// Another request reads the thumbnail; this one sleeps and polls.
    WaitingForThumb,
    /// Holding the load lock; the thumbnail is being read from disk.
    ReadingThumb,
    /// Over: the image was served or the request failed.
    Finished,
}

impl Phase {
    /// Whether a request in this phase holds the download lock of its show.
    pub open spec fn holds_download_lock(self) -> bool {
        self == Phase::CheckingValidity || self == Phase::ReadingOwnThumb || self
            == Phase::ProbingFiles || self == Phase::Fetching || self == Phase::Moving || self
            == Phase::MakingThumbs
    }

    /// Whether a request in this phase holds the load lock of its thumbnail.
    pub open spec fn holds_load_lock(self) -> bool {
        self == Phase::ReadingThumb
    }
}

/// What the work that the last step asked for has brought.
pub enum LoadEvent<T> {
    /// The request begins; the show names an image or not.
    Start { has_image: bool },
    /// The sleep is over.
    Slept,
    /// Whether the cover on disk is within its validity window.
    Validity(bool),
    /// The thumbnail as read from disk, if it could be read.
    ThumbRead(Option<T>),
    /// Which files exist on disk.
    Files { cover_exists: bool, thumb_exists: bool },
    /// The thumbnail made from the downloaded cover, which is still staged,
    /// or why there is none.
    Fetched(Result<T, DownloadError>),
    /// Whether the staged cover could be moved into place.
    Moved(Result<(), DownloadError>),
    /// The thumbnail made anew from the cover on disk, or why there is none.
    ThumbsMade(Result<T, DownloadError>),
}

/// What the request asks the surrounding program to do next.
#[derive(Clone, Copy, PartialEq, Eq, Structural, Debug)]
pub enum LoadAction {
    /// Take the image from the cache: the request succeeded.
    Serve,
    /// Report the failure: the request is over.
    Fail(DownloadError),
    /// Sleep for one poll interval, then report `Slept`.
    Sleep,
    /// Find out whether the cover on disk is still valid.
    CheckValidity,
    /// Read the thumbnail from disk.
    ReadThumb,
    /// Look which files exist on disk.
    ProbeFiles,
    /// Download the cover into its staging directory and make its
    /// thumbnails; do not move it yet. With `replace` a cover on disk is
    /// being replaced.
    Fetch { replace: bool },
    /// Move the staged cover into place; with `replace`, by way of the
    /// update path beside the cover it replaces.
    MoveIntoPlace { replace: bool },
    /// Make the thumbnails anew from the cover on disk. Nothing is
    /// downloaded.
    MakeThumbs,
    /// The event does not belong to this phase: nothing was done.
    Ignore,
}

/// A request for a cover, as mathematical values.
pub struct LoadView {
    pub id: CoverId,
    pub phase: Phase,
    /// The time waited in the current wait, in milliseconds.
    pub waited: nat,
    /// Whether the download of this request replaces a cover on disk.
    pub replace: bool,
}

/// The outcome of one step: the cache and the request afterwards, and what
/// to do next.
pub struct Next<T> {
    pub cache: CoverCacheView<T>,
    pub load: LoadView,
    pub action: LoadAction,
}

/// A request that moves on to `phase`, with its wait begun anew.
pub open spec fn moved(load: LoadView, phase: Phase) -> LoadView {
    LoadView { phase, waited: 0, ..load }
}

/// The step of a request that reads the disk after the download it waited
/// for is over.
pub open spec fn next_after_download<T>(cache: CoverCacheView<T>, load: LoadView) -> Next<T> {
    match disk_start(cache, load.id) {
        DiskStart::Cached => Next {
            cache,
            load: moved(load, Phase::Finished),
            action: LoadAction::Serve,
        },
        DiskStart::Wait => Next {
            cache,
            load: moved(load, Phase::WaitingForThumb),
            action: LoadAction::Sleep,
        },
        DiskStart::Acquired => Next {
            cache: CoverCacheView { loads: cache.loads.insert(load.id), ..cache },
            load: moved(load, Phase::ReadingThumb),
            action: LoadAction::ReadThumb,
        },
    }
}

/// The step of the holder of the download lock that fetches or gives up.
pub open spec fn next_for_holder<T>(
    cache: CoverCacheView<T>,
    load: LoadView,
    disk: DiskState,
) -> Next<T> {
    match holder_action(disk) {
        HolderAction::Redownload => Next {
            cache,
            load: LoadView { replace: true, ..moved(load, Phase::Fetching) },
            action: LoadAction::Fetch { replace: true },
        },
        HolderAction::Regenerate => Next {
            cache,
            load: moved(load, Phase::MakingThumbs),
            action: LoadAction::MakeThumbs,
        },
        HolderAction::Download => Next {
            cache,
            load: LoadView { replace: false, ..moved(load, Phase::Fetching) },
            action: LoadAction::Fetch { replace: false },
        },
        HolderAction::ServeFromDisk => Next {
            cache,
            load: moved(load, Phase::ReadingOwnThumb),
            action: LoadAction::ReadThumb,
        },
        HolderAction::GiveUp => Next {
            cache: after_finish(cache, load.id.0, None),
            load: moved(load, Phase::Finished),
            action: LoadAction::Fail(DownloadError::Failed),
        },
    }
}

/// One step of a request: what the event leads to in the phase the request
/// is in. An event that does not belong to the phase changes nothing.
pub open spec fn next<T>(cache: CoverCacheView<T>, load: LoadView, event: LoadEvent<T>) -> Next<T> {
    let ignored = Next { cache, load, action: LoadAction::Ignore };
    match (load.phase, event) {
        (Phase::Idle, LoadEvent::Start { has_image }) => match load_start(
            cache,
            has_image,
            load.id,
        ) {
            LoadStart::NoImage => Next {
                cache,
                load: moved(load, Phase::Finished),
                action: LoadAction::Fail(DownloadError::NoImageLocation),
            },
            LoadStart::Cached => Next {
                cache,
                load: moved(load, Phase::Finished),
                action: LoadAction::Serve,
            },
            LoadStart::Wait => Next {
                cache,
                load: moved(load, Phase::WaitingForDownload),
                action: LoadAction::Sleep,
            },
            LoadStart::Acquired => Next {
                cache: after_start(cache, has_image, load.id),
                load: moved(load, Phase::CheckingValidity),
                action: LoadAction::CheckValidity,
            },
        },
        (Phase::WaitingForDownload, LoadEvent::Slept) => match poll_step(
            after_sleep(load.waited),
            cache.downloads.contains(load.id.0),
        ) {
            PollStep::TimedOut => Next {
                cache,
                load: moved(load, Phase::Finished),
                action: LoadAction::Fail(DownloadError::TimedOut),
            },
            PollStep::Again => Next {
                cache,
                load: LoadView { waited: after_sleep(load.waited), ..load },
                action: LoadAction::Sleep,
            },
            PollStep::Ready => next_after_download(cache, load),
        },
        (Phase::WaitingForThumb, LoadEvent::Slept) => match poll_step(
            after_sleep(load.waited),
            cache.loads.contains(load.id),
        ) {
            PollStep::TimedOut => Next {
                cache,
                load: moved(load, Phase::Finished),
                action: LoadAction::Fail(DownloadError::TimedOut),
            },
            PollStep::Again => Next {
                cache,
                load: LoadView { waited: after_sleep(load.waited), ..load },
                action: LoadAction::Sleep,
            },
            PollStep::Ready => Next {
                cache,
                load: moved(load, Phase::Finished),
                action: if cache.textures.contains_key(load.id) {
                    LoadAction::Serve
                } else {
                    LoadAction::Fail(DownloadError::Failed)
                },
            },
        },
        (Phase::ReadingThumb, LoadEvent::ThumbRead(thumb)) => Next {
            cache: CoverCacheView {
                loads: cache.loads.remove(load.id),
                textures: match thumb {
                    Some(t) => cache.textures.insert(load.id, t),
                    None => cache.textures,
                },
                ..cache
            },
            load: moved(load, Phase::Finished),
            action: if thumb is Some {
                LoadAction::Serve
            } else {
                LoadAction::Fail(DownloadError::Failed)
            },
        },
        (Phase::CheckingValidity, LoadEvent::Validity(valid)) => next_for_holder(
            cache,
            load,
            DiskState { valid, thumb_loaded: true, cover_exists: true, thumb_exists: true },
        ),
        (Phase::ReadingOwnThumb, LoadEvent::ThumbRead(thumb)) => match thumb {
            Some(t) => Next {
                cache: after_finish(cache, load.id.0, Some((load.id.1, t))),
                load: moved(load, Phase::Finished),
                action: LoadAction::Serve,
            },
            None => Next {
                cache,
                load: moved(load, Phase::ProbingFiles),
                action: LoadAction::ProbeFiles,
            },
        },
        (Phase::ProbingFiles, LoadEvent::Files { cover_exists, thumb_exists }) => next_for_holder(
            cache,
            load,
            DiskState { valid: true, thumb_loaded: false, cover_exists, thumb_exists },
        ),
        (Phase::Fetching, LoadEvent::Fetched(fetched)) => match fetched {
            Ok(t) => Next {
                cache: CoverCacheView { textures: cache.textures.insert(load.id, t), ..cache },
                load: moved(load, Phase::Moving),
                action: LoadAction::MoveIntoPlace { replace: load.replace },
            },
            Err(e) => Next {
                cache: after_finish(cache, load.id.0, None),
                load: moved(load, Phase::Finished),
                action: LoadAction::Fail(e),
            },
        },
        (Phase::Moving, LoadEvent::Moved(result)) => Next {
            cache: after_finish(cache, load.id.0, None),
            load: moved(load, Phase::Finished),
            action: match result {
                Ok(_) => LoadAction::Serve,
                Err(e) => LoadAction::Fail(e),
            },
        },
        (Phase::MakingThumbs, LoadEvent::ThumbsMade(made)) => match made {
            Ok(t) => Next {
                cache: after_finish(cache, load.id.0, Some((load.id.1, t))),
                load: moved(load, Phase::Finished),
                action: LoadAction::Serve,
            },
            Err(e) => Next {
                cache: after_finish(cache, load.id.0, None),
                load: moved(load, Phase::Finished),
                action: LoadAction::Fail(e),
            },
        },
        _ => ignored,
    }
}

/// One request for a cover in one size.
pub struct CoverLoad {
    show_id: i32,
    size: ThumbSize,
    phase: Phase,
    poll: Poll,
    replace: bool,
}

impl View for CoverLoad {
    type V = LoadView;

    closed spec fn view(&self) -> LoadView {
        LoadView {
            id: (self.show_id, self.size),
            phase: self.phase,
            waited: self.poll.waited(),
            replace: self.replace,
        }
    }
}

impl CoverLoad {
    /// A request that has not begun.
    pub fn new(show_id: i32, size: ThumbSize) -> (load: CoverLoad)
        ensures
            load@ == (LoadView {
                id: (show_id, size),
                phase: Phase::Idle,
                waited: 0,
                replace: false,
            }),
    {
        CoverLoad { show_id, size, phase: Phase::Idle, poll: Poll::new(), replace: false }
    }

    /// The phase the request is in.
    pub fn phase(&self) -> (phase: Phase)
        ensures
            phase == self@.phase,
    {
        self.phase
    }

    /// Whether the request is over.
    pub fn is_finished(&self) -> (finished: bool)
        ensures
            finished == (self@.phase == Phase::Finished),
    {
        match self.phase {
            Phase::Finished => true,
            _ => false,
        }
    }

    fn move_to(&mut self, phase: Phase)
        ensures
            final(self)@ == moved(old(self)@, phase),
    {
        self.phase = phase;
        self.poll = Poll::new();
    }

    fn after_download<T>(&mut self, cache: &mut CoverCache<T>) -> (action: LoadAction)
        ensures
            (Next { cache: final(cache)@, load: final(self)@, action }) == next_after_download(
                old(cache)@,
                old(self)@,
            ),
    {
        match cache.begin_disk_load((self.show_id, self.size)) {
            DiskStart::Cached => {
                self.move_to(Phase::Finished);
                LoadAction::Serve
            },
            DiskStart::Wait => {
                self.move_to(Phase::WaitingForThumb);
                LoadAction::Sleep
            },
            DiskStart::Acquired => {
                self.move_to(Phase::ReadingThumb);
                LoadAction::ReadThumb
            },
        }
    }

    fn for_holder<T>(&mut self, cache: &mut CoverCache<T>, disk: &DiskState) -> (action:
        LoadAction)
        ensures
            (Next { cache: final(cache)@, load: final(self)@, action }) == next_for_holder(
                old(cache)@,
                old(self)@,
                *disk,
            ),
    {
        match plan_holder(disk) {
            HolderAction::Redownload => {
                self.move_to(Phase::Fetching);
                self.replace = true;
                LoadAction::Fetch { replace: true }
            },
            HolderAction::Regenerate => {
                self.move_to(Phase::MakingThumbs);
                LoadAction::MakeThumbs
            },
            HolderAction::Download => {
                self.move_to(Phase::Fetching);
                self.replace = false;
                LoadAction::Fetch { replace: false }
            },
            HolderAction::ServeFromDisk => {
                self.move_to(Phase::ReadingOwnThumb);
                LoadAction::ReadThumb
            },
            HolderAction::GiveUp => {
                cache.finish_load(self.show_id, None);
                self.move_to(Phase::Finished);
                LoadAction::Fail(DownloadError::Failed)
            },
        }
    }

    /// Takes the request one step further on what the last piece of work
    /// brought, and says what to do next. The locks are handled here: the
    /// download lock is taken when the request becomes the holder and given
    /// back on every way out, and so is the load lock.
    pub fn step<T>(&mut self, cache: &mut CoverCache<T>, event: LoadEvent<T>) -> (action:
        LoadAction)
        ensures
            (Next { cache: final(cache)@, load: final(self)@, action }) == next(
                old(cache)@,
                old(self)@,
                event,
            ),
    {
        let id = (self.show_id, self.size);
        match (self.phase, event) {
            (Phase::Idle, LoadEvent::Start { has_image }) => {
                match cache.begin_load(has_image, self.show_id, self.size) {
                    LoadStart::NoImage => {
                        self.move_to(Phase::Finished);
                        LoadAction::Fail(DownloadError::NoImageLocation)
                    },
                    LoadStart::Cached => {
                        self.move_to(Phase::Finished);
                        LoadAction::Serve
                    },
                    LoadStart::Wait => {
                        self.move_to(Phase::WaitingForDownload);
                        LoadAction::Sleep
                    },
                    LoadStart::Acquired => {
                        self.move_to(Phase::CheckingValidity);
                        LoadAction::CheckValidity
                    },
                }
            },
            (Phase::WaitingForDownload, LoadEvent::Slept) => {
                let busy = cache.cover_is_downloading(self.show_id);
                match self.poll.tick(busy) {
                    PollStep::TimedOut => {
                        self.move_to(Phase::Finished);
                        LoadAction::Fail(DownloadError::TimedOut)
                    },
                    PollStep::Again => LoadAction::Sleep,
                    PollStep::Ready => self.after_download(cache),
                }
            },
            (Phase::WaitingForThumb, LoadEvent::Slept) => {
                let busy = cache.thumb_is_loading(id);
                match self.poll.tick(busy) {
                    PollStep::TimedOut => {
                        self.move_to(Phase::Finished);
                        LoadAction::Fail(DownloadError::TimedOut)
                    },
                    PollStep::Again => LoadAction::Sleep,
                    PollStep::Ready => {
                        self.move_to(Phase::Finished);
                        if cache.from_cache(id).is_some() {
                            LoadAction::Serve
                        } else {
                            LoadAction::Fail(DownloadError::Failed)
                        }
                    },
                }
            },
            (Phase::ReadingThumb, LoadEvent::ThumbRead(thumb)) => {
                let action = if thumb.is_some() {
                    LoadAction::Serve
                } else {
                    LoadAction::Fail(DownloadError::Failed)
                };
                cache.finish_disk_load(id, thumb);
                self.move_to(Phase::Finished);
                action
            },
            (Phase::CheckingValidity, LoadEvent::Validity(valid)) => self.for_holder(
                cache,
                &DiskState { valid, thumb_loaded: true, cover_exists: true, thumb_exists: true },
            ),
            (Phase::ReadingOwnThumb, LoadEvent::ThumbRead(thumb)) => match thumb {
                Some(t) => {
                    cache.finish_load(self.show_id, Some((self.size, t)));
                    self.move_to(Phase::Finished);
                    LoadAction::Serve
                },
                None => {
                    self.move_to(Phase::ProbingFiles);
                    LoadAction::ProbeFiles
                },
            },
            (Phase::ProbingFiles, LoadEvent::Files { cover_exists, thumb_exists }) => {
                self.for_holder(
                    cache,
                    &DiskState { valid: true, thumb_loaded: false, cover_exists, thumb_exists },
                )
            },
            (Phase::Fetching, LoadEvent::Fetched(fetched)) => match fetched {
                Ok(t) => {
                    cache.insert_texture(id, t);
                    let replace = self.replace;
                    self.move_to(Phase::Moving);
                    LoadAction::MoveIntoPlace { replace }
                },
                Err(e) => {
                    cache.finish_load(self.show_id, None);
                    self.move_to(Phase::Finished);
                    LoadAction::Fail(e)
                },
            },
            (Phase::Moving, LoadEvent::Moved(result)) => {
                cache.finish_load(self.show_id, None);
                self.move_to(Phase::Finished);
                match result {
                    Ok(_) => LoadAction::Serve,
                    Err(e) => LoadAction::Fail(e),
                }
            },
            (Phase::MakingThumbs, LoadEvent::ThumbsMade(made)) => match made {
                Ok(t) => {
                    cache.finish_load(self.show_id, Some((self.size, t)));
                    self.move_to(Phase::Finished);
                    LoadAction::Serve
                },
                Err(e) => {
                    cache.finish_load(self.show_id, None);
                    self.move_to(Phase::Finished);
                    LoadAction::Fail(e)
                },
            },
            _ => LoadAction::Ignore,
        }
    }
}

/// The request that holds the download lock gives it back on every way
/// out: whatever event ends a holder's request, its show is not marked as
/// downloading afterwards. And a request that goes on as the holder still
/// finds its show marked, if it was marked before.
pub proof fn lemma_holder_releases_lock<T>(
    cache: CoverCacheView<T>,
    load: LoadView,
    event: LoadEvent<T>,
)
    requires
        load.phase.holds_download_lock(),
        cache.downloads.contains(load.id.0),
    ensures
        ({
            let after = next(cache, load, event);
            &&& after.load.phase == Phase::Finished ==> !after.cache.downloads.contains(load.id.0)
            &&& after.load.phase != Phase::Finished ==> after.load.phase.holds_download_lock()
                && after.cache.downloads.contains(load.id.0)
        }),
{
}

/// A request takes the download lock only where nobody holds it, and a
/// request that does not hold it never gives it back.
pub proof fn lemma_lock_changes_hands_in_order<T>(
    cache: CoverCacheView<T>,
    load: LoadView,
    event: LoadEvent<T>,
)
    requires
        !load.phase.holds_download_lock(),
    ensures
        ({
            let after = next(cache, load, event);
            &&& after.load.phase.holds_download_lock() ==> !cache.downloads.contains(load.id.0)
                && after.cache.downloads == cache.downloads.insert(load.id.0)
            &&& !after.load.phase.holds_download_lock() ==> after.cache.downloads
                == cache.downloads
        }),
{
}

/// The cache in memory only grows: no step of any request removes an image
/// that is kept.
pub proof fn lemma_nothing_is_evicted<T>(
    cache: CoverCacheView<T>,
    load: LoadView,
    event: LoadEvent<T>,
    kept: CoverId,
)
    requires
        cache.textures.contains_key(kept),
    ensures
        next(cache, load, event).cache.textures.contains_key(kept),
{
}

/// A thumbnail is read from disk by one request at a time: while one holds
/// the load lock, a request that has waited for the download does not
/// start reading the same file.
pub proof fn lemma_one_reader_per_thumbnail<T>(cache: CoverCacheView<T>, load: LoadView)
    requires
        cache.loads.contains(load.id),
    ensures
        next_after_download(cache, load).load.phase != Phase::ReadingThumb,
        next_after_download(cache, load).cache == cache,
{
}

/// A request that is served finds its image in the cache. For a request
/// that moves its cover into place the image went into the cache when the
/// move was asked for, and stays there until the move is over.
pub proof fn lemma_served_image_is_cached<T>(
    cache: CoverCacheView<T>,
    load: LoadView,
    event: LoadEvent<T>,
)
    requires
        load.phase == Phase::Moving ==> cache.textures.contains_key(load.id),
    ensures
        ({
            let after = next(cache, load, event);
            &&& after.action == LoadAction::Serve ==> after.cache.textures.contains_key(load.id)
            &&& after.load.phase == Phase::Moving ==> after.cache.textures.contains_key(load.id)
        }),
{
}

/// A thumbnail that is missing beside a fresh cover is made from the cover
/// on disk: the holder is asked to make the thumbnails, not to download, and
/// nothing that follows asks it to download or to move a file. When the
/// thumbnails are made the image is in memory and the lock is free; when
/// they cannot be made the lock is free all the same.
pub proof fn lemma_missing_thumbnail_is_made_from_disk<T>(
    cache: CoverCacheView<T>,
    load: LoadView,
    later: LoadEvent<T>,
    made: Result<T, DownloadError>,
)
    requires
        load.phase == Phase::ProbingFiles,
    ensures
        ({
            let probed = next(
                cache,
                load,
                LoadEvent::<T>::Files { cover_exists: true, thumb_exists: false },
            );
            let after = next(probed.cache, probed.load, later);
            let done = next(probed.cache, probed.load, LoadEvent::ThumbsMade(made));
            &&& probed.action == LoadAction::MakeThumbs
            &&& probed.load.phase == Phase::MakingThumbs
            &&& probed.cache == cache
            &&& !(after.action is Fetch) && !(after.action is MoveIntoPlace)
            &&& done.load.phase == Phase::Finished
            &&& !done.cache.downloads.contains(load.id.0)
            &&& match made {
                Ok(t) => done.action == LoadAction::Serve && done.cache.textures.contains_key(
                    load.id,
                ) && done.cache.textures[load.id] == t,
                Err(e) => done.action == LoadAction::Fail(e) && done.cache.textures
                    == cache.textures,
            }
        }),
{
}

/// The image goes into memory before the cover is moved into place, and the
/// lock is kept until the move is over: a cover in place means that its
/// thumbnails exist, and no second download starts while the first is
/// being finished.
pub proof fn lemma_cache_then_move<T>(
    cache: CoverCacheView<T>,
    load: LoadView,
    texture: T,
    moved_to: Result<(), DownloadError>,
)
    requires
        load.phase == Phase::Fetching,
        cache.downloads.contains(load.id.0),
    ensures
        ({
            let fetched = next(cache, load, LoadEvent::Fetched(Ok(texture)));
            let done = next(fetched.cache, fetched.load, LoadEvent::<T>::Moved(moved_to));
            &&& fetched.action == LoadAction::MoveIntoPlace { replace: load.replace }
            &&& fetched.cache.textures == cache.textures.insert(load.id, texture)
            &&& fetched.cache.downloads.contains(load.id.0)
            &&& done.load.phase == Phase::Finished
            &&& !done.cache.downloads.contains(load.id.0)
            &&& done.cache.textures == fetched.cache.textures
            &&& done.action == (match moved_to {
                Ok(_) => LoadAction::Serve,
                Err(e) => LoadAction::Fail(e),
            })
        }),
{
}

/// Waiting ends: every sleep that a waiting request is sent into uses up
/// one of the polls it has left, and once more than the limit has been
/// waited the request fails instead of sleeping again.
pub proof fn lemma_waiting_ends<T>(cache: CoverCacheView<T>, load: LoadView)
    requires
        load.phase == Phase::WaitingForDownload || load.phase == Phase::WaitingForThumb,
    ensures
        ({
            let after = next(cache, load, LoadEvent::<T>::Slept);
            &&& after.load.phase == load.phase ==> after.load.waited == load.waited
                + crate::cover_cache::SLEEP_TIME_MS && after.load.waited
                <= crate::cover_cache::SLEEP_LIMIT_MS
            &&& after_sleep(load.waited) > crate::cover_cache::SLEEP_LIMIT_MS ==> after.action
                == LoadAction::Fail(DownloadError::TimedOut)
        }),
{
}

/// Where a request that only wants the cover on disk stands.
#[derive(Clone, Copy, PartialEq, Eq, Structural, Debug)]
pub enum JustPhase {
    /// Not begun.
    Idle,
    /// Holding the download lock; the cover is being downloaded, its
    /// thumbnails made and the cover moved into place.
    Fetching,
    /// Another request downloads the cover; this one sleeps and polls.
    Waiting,
    /// Over.
    Finished,
}

/// What the work that the last step of such a request asked for has brought.
#[derive(Clone, Copy, Debug)]
pub enum JustEvent {
    /// The request begins.
    Start,
    /// The download is over: the cover is in place, or it failed.
    Fetched(Result<(), DownloadError>),
    /// The sleep is over.
    Slept,
}

/// What such a request asks the surrounding program to do next.
#[derive(Clone, Copy, PartialEq, Eq, Structural, Debug)]
pub enum JustAction {
    /// Download the cover, make its thumbnails and move it into place.
    Fetch,
    /// Sleep for one poll interval, then report `Slept`.
    Sleep,
    /// The cover is on disk: the request succeeded.
    Done,
    /// Report the failure: the request is over.
    Fail(DownloadError),
    /// The event does not belong to this phase: nothing was done.
    Ignore,
}

/// A request that only wants the cover on disk, as mathematical values.
pub struct JustView {
    pub show_id: i32,
    pub phase: JustPhase,
    /// The time waited so far, in milliseconds.
    pub waited: nat,
}

/// One step of a request that only wants the cover on disk. The first to
/// ask downloads; whoever asks meanwhile waits until the download is over,
/// or fails when that takes too long. No image goes into memory.
pub open spec fn just_next<T>(cache: CoverCacheView<T>, just: JustView, event: JustEvent) -> (
    CoverCacheView<T>,
    JustView,
    JustAction,
) {
    match (just.phase, event) {
        (JustPhase::Idle, JustEvent::Start) => if cache.downloads.contains(just.show_id) {
            (cache, JustView { phase: JustPhase::Waiting, ..just }, JustAction::Sleep)
        } else {
            (
                CoverCacheView { downloads: cache.downloads.insert(just.show_id), ..cache },
                JustView { phase: JustPhase::Fetching, ..just },
                JustAction::Fetch,
            )
        },
        (JustPhase::Fetching, JustEvent::Fetched(result)) => (
            CoverCacheView { downloads: cache.downloads.remove(just.show_id), ..cache },
            JustView { phase: JustPhase::Finished, ..just },
            match result {
                Ok(_) => JustAction::Done,
                Err(e) => JustAction::Fail(e),
            },
        ),
        (JustPhase::Waiting, JustEvent::Slept) => match poll_step(
            after_sleep(just.waited),
            cache.downloads.contains(just.show_id),
        ) {
            PollStep::TimedOut => (
                cache,
                JustView { phase: JustPhase::Finished, waited: after_sleep(just.waited), ..just },
                JustAction::Fail(DownloadError::TimedOut),
            ),
            PollStep::Again => (
                cache,
                JustView { waited: after_sleep(just.waited), ..just },
                JustAction::Sleep,
            ),
            PollStep::Ready => (
                cache,
                JustView { phase: JustPhase::Finished, waited: after_sleep(just.waited), ..just },
                JustAction::Done,
            ),
        },
        _ => (cache, just, JustAction::Ignore),
    }
}

/// A request that only wants the cover of a show on disk.
pub struct JustDownload {
    show_id: i32,
    phase: JustPhase,
    poll: Poll,
}

impl View for JustDownload {
    type V = JustView;

    closed spec fn view(&self) -> JustView {
        JustView { show_id: self.show_id, phase: self.phase, waited: self.poll.waited() }
    }
}

impl JustDownload {
    /// A request that has not begun.
    pub fn new(show_id: i32) -> (just: JustDownload)
        ensures
            just@ == (JustView { show_id, phase: JustPhase::Idle, waited: 0 }),
    {
        JustDownload { show_id, phase: JustPhase::Idle, poll: Poll::new() }
    }

    /// The phase the request is in.
    pub fn phase(&self) -> (phase: JustPhase)
        ensures
            phase == self@.phase,
    {
        self.phase
    }

    /// Takes the request one step further on what the last piece of work
    /// brought, and says what to do next. The download lock is taken by the
    /// request that downloads and given back when its download is over,
    /// however it went.
    pub fn just_download_step<T>(&mut self, cache: &mut CoverCache<T>, event: JustEvent) -> (action:
        JustAction)
        ensures
            (final(cache)@, final(self)@, action) == just_next(old(cache)@, old(self)@, event),
    {
        match (self.phase, event) {
            (JustPhase::Idle, JustEvent::Start) => {
                if cache.cover_is_downloading(self.show_id) {
                    self.phase = JustPhase::Waiting;
                    JustAction::Sleep
                } else {
                    cache.aquire_dl_lock(self.show_id);
                    self.phase = JustPhase::Fetching;
                    JustAction::Fetch
                }
            },
            (JustPhase::Fetching, JustEvent::Fetched(result)) => {
                cache.drop_dl_lock(self.show_id);
                self.phase = JustPhase::Finished;
                match result {
                    Ok(_) => JustAction::Done,
                    Err(e) => JustAction::Fail(e),
                }
            },
            (JustPhase::Waiting, JustEvent::Slept) => {
                let busy = cache.cover_is_downloading(self.show_id);
                match self.poll.tick(busy) {
                    PollStep::TimedOut => {
                        self.phase = JustPhase::Finished;
                        JustAction::Fail(DownloadError::TimedOut)
                    },
                    PollStep::Again => JustAction::Sleep,
                    PollStep::Ready => {
                        self.phase = JustPhase::Finished;
                        JustAction::Done
                    },
                }
            },
            _ => JustAction::Ignore,
        }
    }
}

/// The request that downloads gives the lock back on every way out and
/// never touches the images in memory; a request that does not download
/// leaves the cache as it is.
pub proof fn lemma_just_download_frees_lock<T>(
    cache: CoverCacheView<T>,
    just: JustView,
    event: JustEvent,
)
    ensures
        ({
            let after = just_next(cache, just, event);
            &&& after.0.textures == cache.textures
            &&& after.0.loads == cache.loads
            &&& just.phase == JustPhase::Fetching && after.1.phase == JustPhase::Finished
                ==> !after.0.downloads.contains(just.show_id)
            &&& just.phase != JustPhase::Fetching && after.1.phase != JustPhase::Fetching
                ==> after.0 == cache
            &&& after.1.phase == JustPhase::Fetching && just.phase != JustPhase::Fetching
                ==> !cache.downloads.contains(just.show_id) && after.0.downloads.contains(
                just.show_id,
            )
        }),
{
}

} // verus!
