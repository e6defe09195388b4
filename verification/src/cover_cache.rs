//! The shared state of the cover cache and the decisions of a load.
//!
//! Three registries coordinate the requests for covers: the shows whose cover
//! is being downloaded, the thumbnails that are being read from disk, and
//! the decoded images kept in memory. At most one request downloads the
//! cover of a show at a time; the others wait for it.

use crate::covers::{cache_valid, CoverId, ThumbSize};
use crate::errors::DownloadError;
use std::collections::{HashMap, HashSet};
use vstd::prelude::*;

verus! {

/// The number of a thumbnail size, counted from the smallest.
pub open spec fn size_index(size: ThumbSize) -> int {
    match size {
        ThumbSize::Thumb64 => 0,
        ThumbSize::Thumb128 => 1,
        ThumbSize::Thumb256 => 2,
        ThumbSize::Thumb512 => 3,
    }
}

/// The number under which a cover in one size is kept: distinct covers have
/// distinct numbers.
pub open spec fn cover_key(id: CoverId) -> u64 {
    ((id.0 as int + 0x8000_0000) * 4 + size_index(id.1)) as u64
}

fn key_of(id: CoverId) -> (k: u64)
    ensures
        k == cover_key(id),
{
    let shifted: u64 = (id.0 as i64 + 0x8000_0000) as u64;
    let index: u64 = match id.1 {
        ThumbSize::Thumb64 => 0,
        ThumbSize::Thumb128 => 1,
        ThumbSize::Thumb256 => 2,
        ThumbSize::Thumb512 => 3,
    };
    shifted * 4 + index
}

proof fn lemma_key_injective(a: CoverId, b: CoverId)
    ensures
        cover_key(a) == cover_key(b) <==> a == b,
{
}

/// What the cache holds, as mathematical values.
pub struct CoverCacheView<T> {
    /// The decoded images in memory.
    pub textures: Map<CoverId, T>,
    /// The shows whose cover is being downloaded.
    pub downloads: Set<i32>,
    /// The thumbnails that are being read from disk.
    pub loads: Set<CoverId>,
}

/// The registries of the cover cache. The surrounding program shares one
/// value of this type among all requests and holds a lock around each call.
pub struct CoverCache<T> {
    textures: HashMap<u64, T>,
    downloads: HashSet<i32>,
    loads: HashSet<u64>,
}

impl<T> View for CoverCache<T> {
    type V = CoverCacheView<T>;

    closed spec fn view(&self) -> CoverCacheView<T> {
        CoverCacheView {
            textures: Map::new(
                |id: CoverId| self.textures@.contains_key(cover_key(id)),
                |id: CoverId| self.textures@[cover_key(id)],
            ),
            downloads: self.downloads@,
            loads: Set::new(|id: CoverId| self.loads@.contains(cover_key(id))),
        }
    }
}

/// How a request for a cover begins.
#[derive(Clone, Copy, PartialEq, Eq, Structural, Debug)]
pub enum LoadStart {
    /// The show names no image: the request fails for good.
    NoImage,
    /// The image is in memory.
    Cached,
    /// Another request downloads the cover: wait for it.
    Wait,
    /// This request holds the download lock now and goes on to the disk.
    Acquired,
}

/// How a request for a cover begins, given what the cache holds.
pub open spec fn load_start<T>(cache: CoverCacheView<T>, has_image: bool, id: CoverId) -> LoadStart {
    if !has_image {
        LoadStart::NoImage
    } else if cache.textures.contains_key(id) {
        LoadStart::Cached
    } else if cache.downloads.contains(id.0) {
        LoadStart::Wait
    } else {
        LoadStart::Acquired
    }
}

/// The cache after a request has begun: it holds the download lock of the
/// show if the request acquired it, and is unchanged otherwise.
pub open spec fn after_start<T>(cache: CoverCacheView<T>, has_image: bool, id: CoverId) -> CoverCacheView<
    T,
> {
    if load_start(cache, has_image, id) == LoadStart::Acquired {
        CoverCacheView { downloads: cache.downloads.insert(id.0), ..cache }
    } else {
        cache
    }
}

/// The cache after the holder of a download lock is done: the lock is
/// released, and the image it brought, if any, is in memory.
pub open spec fn after_finish<T>(
    cache: CoverCacheView<T>,
    show_id: i32,
    loaded: Option<(ThumbSize, T)>,
) -> CoverCacheView<T> {
    CoverCacheView {
        downloads: cache.downloads.remove(show_id),
        textures: match loaded {
            Some((size, texture)) => cache.textures.insert((show_id, size), texture),
            None => cache.textures,
        },
        ..cache
    }
}

/// What the holder of the download lock finds on disk.
pub struct DiskState {
    /// Whether the cached cover is still within its validity window.
    pub valid: bool,
    /// Whether the thumbnail of the requested size could be read.
    pub thumb_loaded: bool,
    /// Whether the full-size cover exists.
    pub cover_exists: bool,
    /// Whether the thumbnail of the requested size exists.
    pub thumb_exists: bool,
}

/// What the holder of the download lock does next.
#[derive(Clone, Copy, PartialEq, Eq, Structural, Debug)]
pub enum HolderAction {
    /// The cover is stale: download it anew, then replace the one on disk.
    Redownload,
    /// The thumbnail was read from disk: serve it.
    ServeFromDisk,
    /// The cover is there and fresh but the thumbnail is not: make the
    /// thumbnails anew from the cover on disk. Nothing is downloaded.
    Regenerate,
    /// Nothing is there: download the cover.
    Download,
    /// Cover and thumbnail are there and cannot be read: give up.
    GiveUp,
}

/// What the holder of the download lock does with what it finds on disk. A
/// stale cover is replaced whatever else is there.
pub open spec fn holder_action(disk: DiskState) -> HolderAction {
    if !disk.valid {
        HolderAction::Redownload
    } else if disk.thumb_loaded {
        HolderAction::ServeFromDisk
    } else if disk.cover_exists && !disk.thumb_exists {
        HolderAction::Regenerate
    } else if !disk.cover_exists {
        HolderAction::Download
    } else {
        HolderAction::GiveUp
    }
}

/// Decides what the holder of the download lock does next.
pub fn plan_holder(disk: &DiskState) -> (action: HolderAction)
    ensures
        action == holder_action(*disk),
{
    if !disk.valid {
        HolderAction::Redownload
    } else if disk.thumb_loaded {
        HolderAction::ServeFromDisk
    } else if disk.cover_exists && !disk.thumb_exists {
        HolderAction::Regenerate
    } else if !disk.cover_exists {
        HolderAction::Download
    } else {
        HolderAction::GiveUp
    }
}

/// How a read of a thumbnail from disk begins.
#[derive(Clone, Copy, PartialEq, Eq, Structural, Debug)]
pub enum DiskStart {
    /// The image is in memory.
    Cached,
    /// Another request reads this thumbnail: wait for it.
    Wait,
    /// This request holds the load lock now and reads the file.
    Acquired,
}

/// How a read of a thumbnail from disk begins, given what the cache holds.
pub open spec fn disk_start<T>(cache: CoverCacheView<T>, id: CoverId) -> DiskStart {
    if cache.textures.contains_key(id) {
        DiskStart::Cached
    } else if cache.loads.contains(id) {
        DiskStart::Wait
    } else {
        DiskStart::Acquired
    }
}

impl<T> CoverCache<T> {
    /// An empty cache: nothing in memory, nothing in flight.
    pub fn new() -> (c: CoverCache<T>)
        ensures
            c@.textures == Map::<CoverId, T>::empty(),
            c@.downloads == Set::<i32>::empty(),
            c@.loads == Set::<CoverId>::empty(),
    {
        let c = CoverCache { textures: HashMap::new(), downloads: HashSet::new(), loads: HashSet::new() };
        assert(c@.textures =~= Map::<CoverId, T>::empty());
        assert(c@.loads =~= Set::<CoverId>::empty());
        c
    }

    /// The image kept in memory for a cover, if there is one.
    pub fn from_cache(&self, id: CoverId) -> (r: Option<&T>)
        ensures
            match r {
                Some(t) => self@.textures.contains_key(id) && *t == self@.textures[id],
                None => !self@.textures.contains_key(id),
            },
    {
        self.textures.get(&key_of(id))
    }

    /// Whether the cover of a show is being downloaded.
    pub fn cover_is_downloading(&self, show_id: i32) -> (r: bool)
        ensures
            r == self@.downloads.contains(show_id),
    {
        self.downloads.contains(&show_id)
    }

    /// Takes the download lock of a show if nobody holds it. Returns
    /// whether the caller holds it now.
    pub fn aquire_dl_lock(&mut self, show_id: i32) -> (acquired: bool)
        ensures
            acquired == !old(self)@.downloads.contains(show_id),
            final(self)@ == (CoverCacheView {
                downloads: old(self)@.downloads.insert(show_id),
                ..old(self)@
            }),
    {
        self.downloads.insert(show_id)
    }

    /// Releases the download lock of a show.
    pub fn drop_dl_lock(&mut self, show_id: i32)
        ensures
            final(self)@ == (CoverCacheView {
                downloads: old(self)@.downloads.remove(show_id),
                ..old(self)@
            }),
    {
        self.downloads.remove(&show_id);
    }

    /// Whether a thumbnail is being read from disk.
    pub fn thumb_is_loading(&self, id: CoverId) -> (r: bool)
        ensures
            r == self@.loads.contains(id),
    {
        self.loads.contains(&key_of(id))
    }

    /// Keeps a decoded image in memory. Nothing is ever evicted.
    pub fn insert_texture(&mut self, id: CoverId, texture: T)
        ensures
            final(self)@ == (CoverCacheView {
                textures: old(self)@.textures.insert(id, texture),
                ..old(self)@
            }),
    {
        self.textures.insert(key_of(id), texture);
        proof {
            assert forall|other: CoverId| true implies (cover_key(other) == cover_key(id)
                <==> other == id) by {
                lemma_key_injective(other, id);
            }
            assert(self@.textures =~= old(self)@.textures.insert(id, texture));
            assert(self@.loads =~= old(self)@.loads);
        }
    }

    /// Begins a request for a cover: refuses a show without an image,
    /// answers from memory, lets the request wait while another downloads,
    /// or hands it the download lock.
    pub fn begin_load(&mut self, has_image: bool, show_id: i32, size: ThumbSize) -> (r: LoadStart)
        ensures
            r == load_start(old(self)@, has_image, (show_id, size)),
            final(self)@ == after_start(old(self)@, has_image, (show_id, size)),
    {
        if !has_image {
            return LoadStart::NoImage;
        }
        if self.from_cache((show_id, size)).is_some() {
            return LoadStart::Cached;
        }
        if self.cover_is_downloading(show_id) {
            return LoadStart::Wait;
        }
        if !self.aquire_dl_lock(show_id) {
            return LoadStart::Wait;
        }
        LoadStart::Acquired
    }

    /// Ends the work of the holder of a download lock, however it went: the
    /// image it brought, if any, goes into memory, and the lock is released.
    pub fn finish_load(&mut self, show_id: i32, loaded: Option<(ThumbSize, T)>)
        ensures
            final(self)@ == after_finish(old(self)@, show_id, loaded),
    {
        if let Some((size, texture)) = loaded {
            self.insert_texture((show_id, size), texture);
        }
        self.drop_dl_lock(show_id);
    }

    /// Begins a read of a thumbnail from disk: answers from memory, lets
    /// the request wait while another reads the file, or hands it the load
    /// lock.
    pub fn begin_disk_load(&mut self, id: CoverId) -> (r: DiskStart)
        ensures
            r == disk_start(old(self)@, id),
            final(self)@ == (if r == DiskStart::Acquired {
                CoverCacheView { loads: old(self)@.loads.insert(id), ..old(self)@ }
            } else {
                old(self)@
            }),
    {
        if self.from_cache(id).is_some() {
            return DiskStart::Cached;
        }
        if self.thumb_is_loading(id) {
            return DiskStart::Wait;
        }
        self.loads.insert(key_of(id));
        proof {
            assert forall|other: CoverId| true implies (cover_key(other) == cover_key(id)
                <==> other == id) by {
                lemma_key_injective(other, id);
            }
            assert(self@.loads =~= old(self)@.loads.insert(id));
            assert(self@.textures =~= old(self)@.textures);
        }
        DiskStart::Acquired
    }

    /// Ends a read of a thumbnail from disk, however it went: the image,
    /// if it could be read, goes into memory, and the load lock is released.
    pub fn finish_disk_load(&mut self, id: CoverId, texture: Option<T>)
        ensures
            final(self)@ == (CoverCacheView {
                loads: old(self)@.loads.remove(id),
                textures: match texture {
                    Some(t) => old(self)@.textures.insert(id, t),
                    None => old(self)@.textures,
                },
                ..old(self)@
            }),
    {
        if let Some(t) = texture {
            self.insert_texture(id, t);
        }
        let ghost before = self@;
        self.loads.remove(&key_of(id));
        proof {
            assert forall|other: CoverId| true implies (cover_key(other) == cover_key(id)
                <==> other == id) by {
                lemma_key_injective(other, id);
            }
            assert(self@.loads =~= before.loads.remove(id));
            assert(self@.textures =~= before.textures);
        }
    }
}

/// How many of the requests for covers of one show, beginning one after
/// the other while none of them finishes, acquire the download lock. Each
/// request asks for the size at its place in `sizes`.
pub open spec fn acquisitions<T>(cache: CoverCacheView<T>, show_id: i32, sizes: Seq<ThumbSize>) -> nat
    decreases sizes.len(),
{
    if sizes.len() == 0 {
        0
    } else {
        let first = (show_id, sizes[0]);
        let one: nat = if load_start(cache, true, first) == LoadStart::Acquired {
            1
        } else {
            0
        };
        one + acquisitions(after_start(cache, true, first), show_id, sizes.drop_first())
    }
}

/// While the cover of a show is being downloaded no request for that show
/// acquires the download lock.
pub proof fn lemma_no_second_download<T>(
    cache: CoverCacheView<T>,
    show_id: i32,
    sizes: Seq<ThumbSize>,
)
    requires
        cache.downloads.contains(show_id),
    ensures
        acquisitions(cache, show_id, sizes) == 0,
    decreases sizes.len(),
{
    if sizes.len() > 0 {
        lemma_no_second_download(
            after_start(cache, true, (show_id, sizes[0])),
            show_id,
            sizes.drop_first(),
        );
    }
}

/// Single flight: however many requests for covers of one show begin while
/// none has finished, at most one of them acquires the download lock, and
/// exactly one where none of the requested sizes is in memory and no
/// download is under way.
pub proof fn lemma_single_flight<T>(cache: CoverCacheView<T>, show_id: i32, sizes: Seq<ThumbSize>)
    ensures
        acquisitions(cache, show_id, sizes) <= 1,
        sizes.len() > 0 && !cache.downloads.contains(show_id) && (forall|k: int|
            0 <= k < sizes.len() ==> !cache.textures.contains_key((show_id, #[trigger] sizes[k])))
            ==> acquisitions(cache, show_id, sizes) == 1,
    decreases sizes.len(),
{
    if sizes.len() > 0 {
        let first = (show_id, sizes[0]);
        let next = after_start(cache, true, first);
        let rest = sizes.drop_first();
        if load_start(cache, true, first) == LoadStart::Acquired {
            lemma_no_second_download(next, show_id, rest);
        } else {
            lemma_single_flight(next, show_id, rest);
            if !cache.downloads.contains(show_id) && (forall|k: int|
                0 <= k < sizes.len() ==> !cache.textures.contains_key(
                    (show_id, #[trigger] sizes[k]),
                )) {
                assert(!cache.textures.contains_key((show_id, sizes[0])));
            }
        }
    }
}

/// Once the holder of the lock has finished with an image, the lock is
/// free again and every request for that cover is answered from memory
/// with that image.
pub proof fn lemma_finished_cover_is_served<T>(
    cache: CoverCacheView<T>,
    show_id: i32,
    size: ThumbSize,
    texture: T,
)
    ensures
        ({
            let after = after_finish(cache, show_id, Some((size, texture)));
            &&& !after.downloads.contains(show_id)
            &&& load_start(after, true, (show_id, size)) == LoadStart::Cached
            &&& after.textures[(show_id, size)] == texture
            &&& after_start(after, true, (show_id, size)) == after
        }),
{
}

/// The holder releases the lock on every path: whether it brought an
/// image or failed, the show is not marked as downloading afterwards, and
/// a later request may try again.
pub proof fn lemma_lock_is_released<T>(
    cache: CoverCacheView<T>,
    show_id: i32,
    loaded: Option<(ThumbSize, T)>,
)
    ensures
        !after_finish(cache, show_id, loaded).downloads.contains(show_id),
{
}

/// A cover on disk that was downloaded more than the validity window ago is
/// downloaded again, by exactly one of the requests that begin together.
pub proof fn lemma_stale_cover_is_fetched_once<T>(
    cache: CoverCacheView<T>,
    show_id: i32,
    sizes: Seq<ThumbSize>,
    disk: DiskState,
    downloaded_at: int,
    now: int,
)
    requires
        sizes.len() > 0,
        !cache.downloads.contains(show_id),
        forall|k: int|
            0 <= k < sizes.len() ==> !cache.textures.contains_key((show_id, #[trigger] sizes[k])),
        disk.valid == cache_valid(downloaded_at, now),
        now - downloaded_at > crate::covers::CACHE_VALID_WEEKS * crate::covers::SECONDS_PER_WEEK,
    ensures
        acquisitions(cache, show_id, sizes) == 1,
        holder_action(disk) == HolderAction::Redownload,
{
    lemma_single_flight(cache, show_id, sizes);
}

/// Whether a download can be attempted: the show must name an image, and
/// not an empty one. Without one the failure is final.
pub fn check_download_location(image_uri: Option<&str>) -> (r: Result<(), DownloadError>)
    ensures
        match r {
            Ok(_) => image_uri matches Some(u) && u@.len() > 0,
            Err(e) => e == DownloadError::NoImageLocation && !(image_uri matches Some(u)
                && u@.len() > 0),
        },
{
    match image_uri {
        None => Err(DownloadError::NoImageLocation),
        Some(u) => if u.unicode_len() == 0 {
            Err(DownloadError::NoImageLocation)
        } else {
            Ok(())
        },
    }
}

/// How a download ends once the thumbnails have been attempted.
#[derive(Clone, Copy, PartialEq, Eq, Structural, Debug)]
pub enum Finalize {
    /// Move the staged cover into place; no image goes into memory.
    MoveOnly,
    /// Put the requested thumbnail into memory, then move the staged
    /// cover into place.
    CacheThenMove,
    /// The requested thumbnail was not made: leave the cover staged
    /// and fail.
    Fail,
}

/// Decides how a download ends. The cover is moved into place only
/// after the thumbnails exist, so that a cover in place means that its
/// thumbnails are there too.
pub fn finalize_download(just_download: bool, thumbnail_made: bool) -> (f: Finalize)
    ensures
        f == (if just_download {
            Finalize::MoveOnly
        } else if thumbnail_made {
            Finalize::CacheThenMove
        } else {
            Finalize::Fail
        }),
{
    if just_download {
        Finalize::MoveOnly
    } else if thumbnail_made {
        Finalize::CacheThenMove
    } else {
        Finalize::Fail
    }
}

/// The time between two polls, in milliseconds.
pub const SLEEP_TIME_MS: u64 = 250;

/// The longest a request waits for another, in milliseconds.
pub const SLEEP_LIMIT_MS: u64 = 30_000;

/// What a waiting request does after a poll.
#[derive(Clone, Copy, PartialEq, Eq, Structural, Debug)]
pub enum PollStep {
    /// The other task is still at it: sleep and poll again.
    Again,
    /// The other task is done: go on.
    Ready,
    /// The wait has lasted too long: fail.
    TimedOut,
}

/// The time waited after one more sleep, held at the largest time that
/// can be counted.
pub open spec fn after_sleep(waited: nat) -> nat {
    if waited + SLEEP_TIME_MS <= u64::MAX {
        (waited + SLEEP_TIME_MS) as nat
    } else {
        u64::MAX as nat
    }
}

/// What a waiting request does after a sleep, given the time it has waited
/// by then and whether the other task is still busy.
pub open spec fn poll_step(waited: nat, busy: bool) -> PollStep {
    if waited > SLEEP_LIMIT_MS {
        PollStep::TimedOut
    } else if busy {
        PollStep::Again
    } else {
        PollStep::Ready
    }
}

/// The time a request has waited for another task.
pub struct Poll {
    waited_ms: u64,
}

impl Poll {
    /// The time waited so far, in milliseconds.
    pub closed spec fn waited(&self) -> nat {
        self.waited_ms as nat
    }

    /// The polls that can still come back with `Again`.
    pub open spec fn polls_left(&self) -> nat {
        if self.waited() <= SLEEP_LIMIT_MS {
            (SLEEP_LIMIT_MS - self.waited()) as nat / (SLEEP_TIME_MS as nat)
        } else {
            0
        }
    }

    /// A wait that has not begun.
    pub fn new() -> (p: Poll)
        ensures
            p.waited() == 0,
    {
        Poll { waited_ms: 0 }
    }

    /// Accounts for one sleep and decides how to go on, given whether the
    /// other task is still busy. The wait fails once more than the limit has
    /// been waited, whatever the other task does; every `Again` uses up one
    /// of the polls that are left, so the wait ends.
    pub fn tick(&mut self, busy: bool) -> (step: PollStep)
        ensures
            final(self).waited() == after_sleep(old(self).waited()),
            step == poll_step(final(self).waited(), busy),
            step == PollStep::Again ==> final(self).polls_left() < old(self).polls_left(),
    {
        self.waited_ms = if self.waited_ms <= u64::MAX - SLEEP_TIME_MS {
            self.waited_ms + SLEEP_TIME_MS
        } else {
            u64::MAX
        };
        if self.waited_ms > SLEEP_LIMIT_MS {
            PollStep::TimedOut
        } else if busy {
            PollStep::Again
        } else {
            PollStep::Ready
        }
    }
}

/// Whether to load an image for a widget at all: not for one that is gone.
pub fn check_requester(alive: bool) -> (r: Result<(), DownloadError>)
    ensures
        r == (if alive {
            Ok::<(), DownloadError>(())
        } else {
            Err(DownloadError::NoLongerNeeded)
        }),
{
    if alive {
        Ok(())
    } else {
        Err(DownloadError::NoLongerNeeded)
    }
}

/// What a finished load comes to for the widget that asked: a failure stays
/// a failure, and an image for a widget that is gone is no longer needed.
pub fn deliver(loaded: Result<(), DownloadError>, alive: bool) -> (r: Result<(), DownloadError>)
    ensures
        r == (match loaded {
            Err(e) => Err(e),
            Ok(_) => if alive {
                Ok::<(), DownloadError>(())
            } else {
                Err(DownloadError::NoLongerNeeded)
            },
        }),
{
    match loaded {
        Err(e) => Err(e),
        Ok(_) => check_requester(alive),
    }
}

} // verus!
