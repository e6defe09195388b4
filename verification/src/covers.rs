//! Cover images on disk: where they lie, what a download is called, which
//! leftovers are swept, and how long a cached cover stays valid.

use crate::text::{
    decimal, i32_to_string, occurs_in, opt_str_text, push_decimal, str_eq, to_chars,
};
use vstd::prelude::*;
use vstd::string::StringExecFns;

verus! {

/// The sizes in which thumbnails of a cover are kept.
#[derive(Clone, Copy, PartialEq, Eq, Structural, Debug, Hash)]
pub enum ThumbSize {
    Thumb64,
    Thumb128,
    Thumb256,
    Thumb512,
}

impl ThumbSize {
    /// The edge of the thumbnail in pixels.
    pub open spec fn spec_pixels(self) -> u32 {
        match self {
            ThumbSize::Thumb64 => 64,
            ThumbSize::Thumb128 => 128,
            ThumbSize::Thumb256 => 256,
            ThumbSize::Thumb512 => 512,
        }
    }

    /// The edge of the thumbnail in pixels.
    #[verifier::when_used_as_spec(spec_pixels)]
    pub fn pixels(self) -> (p: u32)
        ensures
            p == self.spec_pixels(),
    {
        match self {
            ThumbSize::Thumb64 => 64,
            ThumbSize::Thumb128 => 128,
            ThumbSize::Thumb256 => 256,
            ThumbSize::Thumb512 => 512,
        }
    }

    /// The size to load for a display that scales by `scale`: the next
    /// larger one from a scale of two on, as far as there is one.
    pub open spec fn spec_hidpi(self, scale: i32) -> Option<ThumbSize> {
        if scale >= 2 {
            match self {
                ThumbSize::Thumb64 => Some(ThumbSize::Thumb128),
                ThumbSize::Thumb128 => Some(ThumbSize::Thumb256),
                ThumbSize::Thumb256 => Some(ThumbSize::Thumb512),
                ThumbSize::Thumb512 => None,
            }
        } else {
            Some(self)
        }
    }

    /// The size to load for a display that scales by `scale`.
    #[verifier::when_used_as_spec(spec_hidpi)]
    pub fn hidpi(self, scale: i32) -> (r: Option<ThumbSize>)
        ensures
            r == self.spec_hidpi(scale),
    {
        if scale >= 2 {
            match self {
                ThumbSize::Thumb64 => Some(ThumbSize::Thumb128),
                ThumbSize::Thumb128 => Some(ThumbSize::Thumb256),
                ThumbSize::Thumb256 => Some(ThumbSize::Thumb512),
                ThumbSize::Thumb512 => None,
            }
        } else {
            Some(self)
        }
    }
}

/// The size that a widget asking for `size` on a display scaling by `scale`
/// is served: the scaled size, or the largest where there is none.
pub fn widget_size(size: ThumbSize, scale: i32) -> (r: ThumbSize)
    ensures
        r == match size.spec_hidpi(scale) {
            Some(s) => s,
            None => ThumbSize::Thumb512,
        },
{
    match size.hidpi(scale) {
        Some(s) => s,
        None => ThumbSize::Thumb512,
    }
}

/// A cover in one size: the show and the thumbnail size.
pub type CoverId = (i32, ThumbSize);

/// Seconds in one week.
pub const SECONDS_PER_WEEK: i64 = 604_800;

/// How many weeks a downloaded cover stays valid.
pub const CACHE_VALID_WEEKS: i64 = 4;

/// The length of `weeks` weeks in seconds, as `chrono::Duration::weeks`
/// followed by `num_seconds` gives it. The bound keeps the product within
/// what `weeks` accepts without a panic.
#[verifier::external_body]
fn weeks_in_seconds(weeks: i64) -> (seconds: i64)
    requires
        -1_000_000 <= weeks <= 1_000_000,
    ensures
        seconds == weeks * SECONDS_PER_WEEK,
{
    chrono::Duration::weeks(weeks).num_seconds()
}

/// A cover downloaded at `downloaded_at` is still valid at `now` when no more
/// than the validity window lies between the two.
pub open spec fn cache_valid(downloaded_at: int, now: int) -> bool {
    now - downloaded_at <= CACHE_VALID_WEEKS * SECONDS_PER_WEEK
}

/// Whether a cover recorded as downloaded at `downloaded_at` (UTC seconds) may
/// still be served at `now`. A cover with no recorded download time is stale.
pub fn is_cached_image_valid(downloaded_at: Option<i64>, now: i64) -> (valid: bool)
    ensures
        valid <==> (downloaded_at matches Some(t) && cache_valid(t as int, now as int)),
{
    match downloaded_at {
        None => false,
        Some(t) => {
            let window: i64 = weeks_in_seconds(CACHE_VALID_WEEKS);
            if t >= 0 {
                now < 0 || now - t <= window
            } else {
                now <= i64::MAX + t && now - t <= window
            }
        },
    }
}

/// The file name of a cover: the show id for the full-size cover, the show id, a
/// hyphen and the pixels for a thumbnail.
pub open spec fn cover_file_name(show_id: int, size: Option<ThumbSize>) -> Seq<char> {
    match size {
        Some(s) => decimal(show_id) + seq!['-'] + decimal(s.spec_pixels() as int),
        None => decimal(show_id),
    }
}

/// `name` below the directory `dir`.
pub open spec fn joined(dir: Seq<char>, name: Seq<char>) -> Seq<char> {
    if dir.len() == 0 || dir.last() == '/' {
        dir + name
    } else {
        dir + seq!['/'] + name
    }
}

/// The path of `name` below the directory `dir`.
pub fn join(dir: &str, name: &str) -> (path: String)
    ensures
        path@ == joined(dir@, name@),
{
    let d = to_chars(dir);
    let mut path = dir.to_owned();
    if d.len() > 0 && d[d.len() - 1] != '/' {
        path.push('/');
    }
    path.append(name);
    path
}

/// Where the cover of a show lies below the covers directory: the full-size
/// image for `None`, the thumbnail of that size otherwise.
pub fn determin_cover_path(covers_dir: &str, show_id: i32, size: Option<ThumbSize>) -> (path:
    String)
    ensures
        path@ == joined(covers_dir@, cover_file_name(show_id as int, size)),
{
    let mut name = i32_to_string(show_id);
    if let Some(s) = size {
        name.push('-');
        push_decimal(&mut name, s.pixels() as u64);
    }
    join(covers_dir, name.as_str())
}

/// The characters `-update`.
pub open spec fn update_suffix() -> Seq<char> {
    seq!['-', 'u', 'p', 'd', 'a', 't', 'e']
}

/// Where a refreshed cover is staged before it replaces the one in place: the
/// show id followed by `-update`.
pub fn determin_cover_path_for_update(covers_dir: &str, show_id: i32) -> (path: String)
    ensures
        path@ == joined(covers_dir@, decimal(show_id as int) + update_suffix()),
{
    let mut name = i32_to_string(show_id);
    proof {
        reveal_strlit("-update");
    }
    name.append("-update");
    assert(name@ == decimal(show_id as int) + update_suffix());
    join(covers_dir, name.as_str())
}

/// The characters `-pdcover.part`.
pub open spec fn staging_mark() -> Seq<char> {
    seq!['-', 'p', 'd', 'c', 'o', 'v', 'e', 'r', '.', 'p', 'a', 'r', 't']
}

/// The prefix of the temporary directory that a cover download stages into:
/// the show id followed by `-pdcover.part`.
pub fn staging_prefix(show_id: i32) -> (prefix: String)
    ensures
        prefix@ == decimal(show_id as int) + staging_mark(),
{
    let mut name = i32_to_string(show_id);
    proof {
        reveal_strlit("-pdcover.part");
    }
    name.append("-pdcover.part");
    assert(name@ == decimal(show_id as int) + staging_mark());
    name
}

/// What to do with an entry of the covers directory at startup.
#[derive(Clone, Copy, PartialEq, Eq, Structural, Debug)]
pub enum Cleanup {
    /// Leave it.
    Keep,
    /// Remove the file.
    RemoveFile,
    /// Remove the directory with all it holds.
    RemoveDirAll,
}

/// The last component of a path: what follows its last `/`.
pub open spec fn last_component(path: Seq<char>) -> Seq<char>
    decreases path.len(),
{
    if path.len() == 0 || path.last() == '/' {
        Seq::empty()
    } else {
        last_component(path.drop_last()).push(path.last())
    }
}

/// The characters `.part`.
pub open spec fn part_name() -> Seq<char> {
    seq!['.', 'p', 'a', 'r', 't']
}

/// What is swept: a file named `.part`, and a directory whose path holds the
/// mark of a staged cover download.
pub open spec fn cleanup_for(path: Seq<char>, is_file: bool, is_dir: bool) -> Cleanup {
    if is_dir && occurs_in(path, staging_mark()) {
        Cleanup::RemoveDirAll
    } else if is_file && last_component(path) == part_name() {
        Cleanup::RemoveFile
    } else {
        Cleanup::Keep
    }
}

fn final_component(path: &Vec<char>) -> (start: usize)
    ensures
        start <= path.len(),
        path@.subrange(start as int, path.len() as int) == last_component(path@),
{
    let mut start: usize = path.len();
    assert(path@.subrange(start as int, path.len() as int) =~= Seq::empty());
    while start > 0 && path[start - 1] != '/'
        invariant
            start <= path.len(),
            forall|k: int| start <= k < path.len() ==> path@[k] != '/',
        decreases start,
    {
        start = start - 1;
    }
    proof {
        lemma_last_component(path@, start as int);
    }
    start
}

proof fn lemma_last_component(path: Seq<char>, start: int)
    requires
        0 <= start <= path.len(),
        forall|k: int| start <= k < path.len() ==> path[k] != '/',
        start == 0 || path[start - 1] == '/',
    ensures
        path.subrange(start, path.len() as int) == last_component(path),
    decreases path.len(),
{
    if path.len() == 0 {
        assert(path.subrange(start, path.len() as int) =~= Seq::empty());
    } else if start == path.len() {
        assert(path.subrange(start, path.len() as int) =~= Seq::empty());
    } else {
        let shorter = path.drop_last();
        assert forall|k: int| start <= k < shorter.len() implies shorter[k] != '/' by {
            assert(shorter[k] == path[k]);
        }
        lemma_last_component(shorter, start);
        assert(path.subrange(start, path.len() as int) =~= shorter.subrange(
            start,
            shorter.len() as int,
        ).push(path.last()));
    }
}

/// Decides what to do with one entry of the covers directory at startup.
pub fn cleanup_entry(path: &str, is_file: bool, is_dir: bool) -> (action: Cleanup)
    ensures
        action == cleanup_for(path@, is_file, is_dir),
{
    let p = to_chars(path);
    if is_dir {
        proof {
            reveal_strlit("-pdcover.part");
        }
        let mark = to_chars("-pdcover.part");
        assert(mark@ == staging_mark());
        if crate::text::chars_contain(&p, &mark) {
            return Cleanup::RemoveDirAll;
        }
    }
    if is_file {
        let start = final_component(&p);
        proof {
            reveal_strlit(".part");
        }
        let name = to_chars(".part");
        assert(name@ == part_name());
        let ghost tail = p@.subrange(start as int, p.len() as int);
        if p.len() - start == name.len() && crate::text::matches_at(&p, &name, start) {
            assert(tail == name@);
            return Cleanup::RemoveFile;
        }
        assert(tail != part_name()) by {
            if tail == part_name() {
                assert(tail.len() == 5);
                assert(p@.subrange(start as int, start + name@.len()) == tail);
            }
        }
    }
    Cleanup::Keep
}

/// One entry of the covers directory, as the file system reports it.
pub struct DirEntry {
    pub path: String,
    pub is_file: bool,
    pub is_dir: bool,
}

/// Decides for every entry of the covers directory what to do with it. An
/// entry that cannot be removed later is no reason to leave the others.
pub fn clean_unfinished_downloads(entries: &Vec<DirEntry>) -> (plan: Vec<Cleanup>)
    ensures
        plan.len() == entries.len(),
        forall|i: int|
            0 <= i < entries.len() ==> #[trigger] plan[i] == cleanup_for(
                entries[i].path@,
                entries[i].is_file,
                entries[i].is_dir,
            ),
{
    let mut plan: Vec<Cleanup> = Vec::new();
    let mut i: usize = 0;
    while i < entries.len()
        invariant
            i <= entries.len(),
            plan.len() == i,
            forall|k: int|
                0 <= k < i ==> #[trigger] plan[k] == cleanup_for(
                    entries[k].path@,
                    entries[k].is_file,
                    entries[k].is_dir,
                ),
        decreases entries.len() - i,
    {
        let e = &entries[i];
        plan.push(cleanup_entry(e.path.as_str(), e.is_file, e.is_dir));
        i = i + 1;
    }
    plan
}

/// The segments of the path of a URL, as `url::Url::parse` followed by
/// `Url::path_segments` gives them, in their order: `None` where the text
/// is no URL or the URL has no path to split.
pub uninterp spec fn url_path_segments(url: Seq<char>) -> Option<Seq<Seq<char>>>;

/// Parses a URL with `url::Url::parse` and hands out all its
/// `path_segments`, each as an owned text. The contract only names the
/// outcome.
#[verifier::external_body]
fn path_segments(url: &str) -> (r: Option<Vec<String>>)
    ensures
        match r {
            Some(v) => url_path_segments(url@) == Some(v@.map_values(|s: String| s@)),
            None => url_path_segments(url@) is None,
        },
{
    url::Url::parse(url).ok().and_then(|u| u.path_segments().map(|s| s.map(String::from).collect()))
}

/// The last of the segments of a path, if there are any.
pub open spec fn last_segment_of(segments: Option<Seq<Seq<char>>>) -> Option<Seq<char>> {
    match segments {
        Some(s) => if s.len() > 0 {
            Some(s.last())
        } else {
            None
        },
        None => None,
    }
}

/// The last of the segments of a path, if there are any.
pub fn last_segment(segments: &Option<Vec<String>>) -> (last: Option<&str>)
    ensures
        opt_str_text(last) == last_segment_of(
            match *segments {
                Some(v) => Some(v@.map_values(|s: String| s@)),
                None => None,
            },
        ),
{
    match segments {
        Some(v) => if v.len() > 0 {
            Some(v[v.len() - 1].as_str())
        } else {
            None
        },
        None => None,
    }
}

/// The file extension that stands for an image type, with its dot; empty
/// for a type that is not one of the known image types.
pub open spec fn mime_extension_of(content_type: Option<Seq<char>>) -> Seq<char> {
    if content_type == Some("image/apng"@) {
        ".png"@
    } else if content_type == Some("image/avif"@) {
        ".avif"@
    } else if content_type == Some("image/gif"@) {
        ".gif"@
    } else if content_type == Some("image/jpeg"@) {
        ".jpeg"@
    } else if content_type == Some("image/png"@) {
        ".png"@
    } else if content_type == Some("image/svg"@) {
        ".svg"@
    } else if content_type == Some("image/webp"@) {
        ".webp"@
    } else {
        Seq::empty()
    }
}

/// The file extension for the `Content-Type` of a response.
pub fn mime_extension(content_type: Option<&str>) -> (ext: &'static str)
    ensures
        ext@ == mime_extension_of(opt_str_text(content_type)),
{
    proof {
        reveal_strlit("");
    }
    match content_type {
        None => "",
        Some(m) => {
            if str_eq(m, "image/apng") {
                ".png"
            } else if str_eq(m, "image/avif") {
                ".avif"
            } else if str_eq(m, "image/gif") {
                ".gif"
            } else if str_eq(m, "image/jpeg") {
                ".jpeg"
            } else if str_eq(m, "image/png") {
                ".png"
            } else if str_eq(m, "image/svg") {
                ".svg"
            } else if str_eq(m, "image/webp") {
                ".webp"
            } else {
                ""
            }
        },
    }
}

/// The name under which a download is staged: the last segment of the
/// address with the extension of the image type behind it. Where the
/// address has no segments the name is `tmp-donwload.bin`, where its last
/// segment is empty `tmp-donwload`, each with the extension behind it.
pub open spec fn download_name(ext: Seq<char>, segment: Option<Seq<char>>) -> Seq<char> {
    match segment {
        None => "tmp-donwload.bin"@ + ext,
        Some(s) => if s.len() == 0 {
            "tmp-donwload"@ + ext
        } else {
            s + ext
        },
    }
}

/// The name under which a download is staged, from the extension of its
/// image type and the last segment of its address.
pub fn download_file_name(ext: &str, segment: Option<&str>) -> (name: String)
    ensures
        name@ == download_name(ext@, opt_str_text(segment)),
{
    let stem: &str = match segment {
        None => "tmp-donwload.bin",
        Some(s) => if s.unicode_len() == 0 {
            "tmp-donwload"
        } else {
            s
        },
    };
    let mut name = stem.to_owned();
    name.append(ext);
    name
}

/// The name under which the body of a response is staged, from its
/// `Content-Type` and the address it was finally served from.
pub fn filename_for_download(content_type: Option<&str>, url: &str) -> (name: String)
    ensures
        name@ == download_name(
            mime_extension_of(opt_str_text(content_type)),
            last_segment_of(url_path_segments(url@)),
        ),
{
    let ext = mime_extension(content_type);
    let segments = path_segments(url);
    download_file_name(ext, last_segment(&segments))
}

} // verus!
