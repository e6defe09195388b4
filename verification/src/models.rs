//! The persisted rows: sources, shows and episodes, with their accessors.

use crate::text::{opt_as_str, opt_clone, opt_owned, opt_str_text, opt_text};
use vstd::prelude::*;

verus! {

/// What an [`Episode`] row holds, as mathematical values.
pub struct EpisodeView {
    pub id: int,
    pub title: Option<Seq<char>>,
    pub uri: Seq<char>,
    pub local_uri: Option<Seq<char>>,
    pub description: Option<Seq<char>>,
    pub published_date: Option<Seq<char>>,
    pub epoch: int,
    pub length: Option<int>,
    pub guid: Option<Seq<char>>,
    pub played: Option<int>,
    pub favorite: bool,
    pub archive: bool,
    pub podcast_id: int,
}

/// An optional 32-bit integer as an optional mathematical integer.
pub open spec fn opt_int(a: Option<i32>) -> Option<int> {
    match a {
        Some(n) => Some(n as int),
        None => None,
    }
}

/// One media item of a show, as stored.
pub struct Episode {
    id: i32,
    title: Option<String>,
    uri: String,
    local_uri: Option<String>,
    description: Option<String>,
    published_date: Option<String>,
    /// Publication time in UTC seconds.
    epoch: i32,
    length: Option<i32>,
    guid: Option<String>,
    /// UTC seconds of the last play; `None` while unplayed.
    played: Option<i32>,
    favorite: bool,
    archive: bool,
    podcast_id: i32,
}

impl View for Episode {
    type V = EpisodeView;

    closed spec fn view(&self) -> EpisodeView {
        EpisodeView {
            id: self.id as int,
            title: opt_text(self.title),
            uri: self.uri@,
            local_uri: opt_text(self.local_uri),
            description: opt_text(self.description),
            published_date: opt_text(self.published_date),
            epoch: self.epoch as int,
            length: opt_int(self.length),
            guid: opt_text(self.guid),
            played: opt_int(self.played),
            favorite: self.favorite,
            archive: self.archive,
            podcast_id: self.podcast_id as int,
        }
    }
}

impl Clone for Episode {
    fn clone(&self) -> (r: Episode)
        ensures
            r@ == self@,
    {
        Episode {
            id: self.id,
            title: opt_clone(&self.title),
            uri: self.uri.clone(),
            local_uri: opt_clone(&self.local_uri),
            description: opt_clone(&self.description),
            published_date: opt_clone(&self.published_date),
            epoch: self.epoch,
            length: self.length,
            guid: opt_clone(&self.guid),
            played: self.played,
            favorite: self.favorite,
            archive: self.archive,
            podcast_id: self.podcast_id,
        }
    }
}

/// The current time in UTC seconds, read from the system clock through
/// `chrono::Utc::now().timestamp()`. Nothing is claimed of the value.
#[verifier::external_body]
fn utc_now_seconds() -> i64 {
    chrono::Utc::now().timestamp()
}

impl Episode {
    /// A freshly stored episode: not downloaded, unplayed, neither favorite
    /// nor archived.
    pub fn new(
        id: i32,
        title: Option<&str>,
        uri: &str,
        description: Option<&str>,
        published_date: Option<&str>,
        epoch: i32,
        length: Option<i32>,
        guid: Option<&str>,
        podcast_id: i32,
    ) -> (e: Episode)
        ensures
            e@ == (EpisodeView {
                id: id as int,
                title: opt_str_text(title),
                uri: uri@,
                local_uri: None,
                description: opt_str_text(description),
                published_date: opt_str_text(published_date),
                epoch: epoch as int,
                length: opt_int(length),
                guid: opt_str_text(guid),
                played: None,
                favorite: false,
                archive: false,
                podcast_id: podcast_id as int,
            }),
    {
        Episode {
            id,
            title: opt_owned(title),
            uri: uri.to_owned(),
            local_uri: None,
            description: opt_owned(description),
            published_date: opt_owned(published_date),
            epoch,
            length,
            guid: opt_owned(guid),
            played: None,
            favorite: false,
            archive: false,
            podcast_id,
        }
    }

    /// The row id.
    pub fn id(&self) -> (r: i32)
        ensures
            r == self@.id,
    {
        self.id
    }

    /// The title, if the feed gave one.
    pub fn title(&self) -> (r: Option<&str>)
        ensures
            opt_str_text(r) == self@.title,
    {
        opt_as_str(&self.title)
    }

    /// Replaces the title.
    pub fn set_title(&mut self, value: Option<&str>)
        ensures
            final(self)@ == (EpisodeView { title: opt_str_text(value), ..old(self)@ }),
    {
        self.title = opt_owned(value);
    }

    /// Where the media file is served from.
    pub fn uri(&self) -> (r: &str)
        ensures
            r@ == self@.uri,
    {
        self.uri.as_str()
    }

    /// The media address, as an optional text that is always present.
    pub fn uri_opt(&self) -> (r: Option<&str>)
        ensures
            opt_str_text(r) == Some(self@.uri),
    {
        Some(self.uri.as_str())
    }

    /// Replaces the media address.
    pub fn set_uri(&mut self, value: &str)
        ensures
            final(self)@ == (EpisodeView { uri: value@, ..old(self)@ }),
    {
        self.uri = value.to_owned();
    }

    /// Where the downloaded media file lies, once it has been downloaded.
    pub fn local_uri(&self) -> (r: Option<&str>)
        ensures
            opt_str_text(r) == self@.local_uri,
    {
        opt_as_str(&self.local_uri)
    }

    /// Records, or forgets, the place of the downloaded media file.
    pub fn set_local_uri(&mut self, value: Option<&str>)
        ensures
            final(self)@ == (EpisodeView { local_uri: opt_str_text(value), ..old(self)@ }),
    {
        self.local_uri = opt_owned(value);
    }

    /// The description, if any.
    pub fn description(&self) -> (r: Option<&str>)
        ensures
            opt_str_text(r) == self@.description,
    {
        opt_as_str(&self.description)
    }

    /// Replaces the description.
    pub fn set_description(&mut self, value: Option<&str>)
        ensures
            final(self)@ == (EpisodeView { description: opt_str_text(value), ..old(self)@ }),
    {
        self.description = opt_owned(value);
    }

    /// The publication date as the feed wrote it.
    pub fn published_date(&self) -> (r: Option<&str>)
        ensures
            opt_str_text(r) == self@.published_date,
    {
        opt_as_str(&self.published_date)
    }

    /// Replaces the publication date text.
    pub fn set_published_date(&mut self, value: Option<&str>)
        ensures
            final(self)@ == (EpisodeView { published_date: opt_str_text(value), ..old(self)@ }),
    {
        self.published_date = opt_owned(value);
    }

    /// The feed's identifier for the item, if any.
    pub fn guid(&self) -> (r: Option<&str>)
        ensures
            opt_str_text(r) == self@.guid,
    {
        opt_as_str(&self.guid)
    }

    /// Replaces the feed's identifier.
    pub fn set_guid(&mut self, value: Option<&str>)
        ensures
            final(self)@ == (EpisodeView { guid: opt_str_text(value), ..old(self)@ }),
    {
        self.guid = opt_owned(value);
    }

    /// Publication time in UTC seconds.
    pub fn epoch(&self) -> (r: i32)
        ensures
            r == self@.epoch,
    {
        self.epoch
    }

    /// Replaces the publication time.
    pub fn set_epoch(&mut self, value: i32)
        ensures
            final(self)@ == (EpisodeView { epoch: value as int, ..old(self)@ }),
    {
        self.epoch = value;
    }

    /// Size of the media file in bytes, if known.
    pub fn length(&self) -> (r: Option<i32>)
        ensures
            opt_int(r) == self@.length,
    {
        self.length
    }

    /// Replaces the media size.
    pub fn set_length(&mut self, value: Option<i32>)
        ensures
            final(self)@ == (EpisodeView { length: opt_int(value), ..old(self)@ }),
    {
        self.length = value;
    }

    /// UTC seconds of the last play, `None` while unplayed.
    pub fn played(&self) -> (r: Option<i32>)
        ensures
            opt_int(r) == self@.played,
    {
        self.played
    }

    /// Replaces the time of the last play.
    pub fn set_played(&mut self, value: Option<i32>)
        ensures
            final(self)@ == (EpisodeView { played: opt_int(value), ..old(self)@ }),
    {
        self.played = value;
    }

    /// Whether automatic cleanup must leave the downloaded file alone.
    pub fn archive(&self) -> (r: bool)
        ensures
            r == self@.archive,
    {
        self.archive
    }

    /// Sets the archive policy.
    pub fn set_archive(&mut self, b: bool)
        ensures
            final(self)@ == (EpisodeView { archive: b, ..old(self)@ }),
    {
        self.archive = b
    }

    /// Whether the episode is marked as a favorite.
    pub fn favorite(&self) -> (r: bool)
        ensures
            r == self@.favorite,
    {
        self.favorite
    }

    /// Marks or unmarks the episode as a favorite.
    pub fn set_favorite(&mut self, b: bool)
        ensures
            final(self)@ == (EpisodeView { favorite: b, ..old(self)@ }),
    {
        self.favorite = b
    }

    /// The show this episode belongs to.
    pub fn podcast_id(&self) -> (r: i32)
        ensures
            r == self@.podcast_id,
    {
        self.podcast_id
    }

    /// Marks the episode as played at `now` (UTC seconds), kept in 32 bits.
    pub fn set_played_at(&mut self, now: i64)
        ensures
            final(self)@ == (EpisodeView { played: Some((now as i32) as int), ..old(self)@ }),
    {
        let epoch: i32 = #[verifier::truncate]
        (now as i32);
        self.set_played(Some(epoch));
    }

    /// Marks the episode as played at the current time. Whatever the clock
    /// says, the episode counts as played afterwards and nothing else changes.
    pub fn set_played_now(&mut self)
        ensures
            final(self)@.played is Some,
            final(self)@ == (EpisodeView { played: final(self)@.played, ..old(self)@ }),
    {
        let now = utc_now_seconds();
        self.set_played_at(now);
    }
}

/// What a [`Podcast`] row holds, as mathematical values.
pub struct PodcastView {
    pub id: int,
    pub title: Seq<char>,
    pub link: Seq<char>,
    pub description: Seq<char>,
    pub image_uri: Option<Seq<char>>,
    pub favorite: bool,
    pub archive: bool,
    pub always_dl: bool,
    pub source_id: int,
}

/// A show, as stored. Its title is the key it is found by.
pub struct Podcast {
    id: i32,
    title: String,
    link: String,
    description: String,
    image_uri: Option<String>,
    favorite: bool,
    archive: bool,
    always_dl: bool,
    source_id: i32,
}

impl View for Podcast {
    type V = PodcastView;

    closed spec fn view(&self) -> PodcastView {
        PodcastView {
            id: self.id as int,
            title: self.title@,
            link: self.link@,
            description: self.description@,
            image_uri: opt_text(self.image_uri),
            favorite: self.favorite,
            archive: self.archive,
            always_dl: self.always_dl,
            source_id: self.source_id as int,
        }
    }
}

impl Clone for Podcast {
    fn clone(&self) -> (r: Podcast)
        ensures
            r@ == self@,
    {
        Podcast {
            id: self.id,
            title: self.title.clone(),
            link: self.link.clone(),
            description: self.description.clone(),
            image_uri: opt_clone(&self.image_uri),
            favorite: self.favorite,
            archive: self.archive,
            always_dl: self.always_dl,
            source_id: self.source_id,
        }
    }
}

impl Podcast {
    /// A freshly stored show with all flags off.
    pub fn new(
        id: i32,
        title: &str,
        link: &str,
        description: &str,
        image_uri: Option<&str>,
        source_id: i32,
    ) -> (p: Podcast)
        ensures
            p@ == (PodcastView {
                id: id as int,
                title: title@,
                link: link@,
                description: description@,
                image_uri: opt_str_text(image_uri),
                favorite: false,
                archive: false,
                always_dl: false,
                source_id: source_id as int,
            }),
    {
        Podcast {
            id,
            title: title.to_owned(),
            link: link.to_owned(),
            description: description.to_owned(),
            image_uri: opt_owned(image_uri),
            favorite: false,
            archive: false,
            always_dl: false,
            source_id,
        }
    }

    /// The row id.
    pub fn id(&self) -> (r: i32)
        ensures
            r == self@.id,
    {
        self.id
    }

    /// The source this show was parsed from.
    pub fn source_id(&self) -> (r: i32)
        ensures
            r == self@.source_id,
    {
        self.source_id
    }

    /// The title.
    pub fn title(&self) -> (r: &str)
        ensures
            r@ == self@.title,
    {
        self.title.as_str()
    }

    /// The show's web page.
    pub fn link(&self) -> (r: &str)
        ensures
            r@ == self@.link,
    {
        self.link.as_str()
    }

    /// Replaces the web page address.
    pub fn set_link(&mut self, value: &str)
        ensures
            final(self)@ == (PodcastView { link: value@, ..old(self)@ }),
    {
        self.link = value.to_owned();
    }

    /// The description.
    pub fn description(&self) -> (r: &str)
        ensures
            r@ == self@.description,
    {
        self.description.as_str()
    }

    /// Replaces the description.
    pub fn set_description(&mut self, value: &str)
        ensures
            final(self)@ == (PodcastView { description: value@, ..old(self)@ }),
    {
        self.description = value.to_owned();
    }

    /// Where the cover image is served from, if the feed names one.
    pub fn image_uri(&self) -> (r: Option<&str>)
        ensures
            opt_str_text(r) == self@.image_uri,
    {
        opt_as_str(&self.image_uri)
    }

    /// Replaces the cover image address.
    pub fn set_image_uri(&mut self, value: Option<&str>)
        ensures
            final(self)@ == (PodcastView { image_uri: opt_str_text(value), ..old(self)@ }),
    {
        self.image_uri = opt_owned(value);
    }

    /// Whether the show's downloads are exempt from cleanup.
    pub fn archive(&self) -> (r: bool)
        ensures
            r == self@.archive,
    {
        self.archive
    }

    /// Sets the archive policy.
    pub fn set_archive(&mut self, b: bool)
        ensures
            final(self)@ == (PodcastView { archive: b, ..old(self)@ }),
    {
        self.archive = b
    }

    /// Whether the show is marked as a favorite.
    pub fn favorite(&self) -> (r: bool)
        ensures
            r == self@.favorite,
    {
        self.favorite
    }

    /// Marks or unmarks the show as a favorite.
    pub fn set_favorite(&mut self, b: bool)
        ensures
            final(self)@ == (PodcastView { favorite: b, ..old(self)@ }),
    {
        self.favorite = b
    }

    /// Whether new episodes are downloaded without asking.
    pub fn always_download(&self) -> (r: bool)
        ensures
            r == self@.always_dl,
    {
        self.always_dl
    }

    /// Sets whether new episodes are downloaded without asking.
    pub fn set_always_download(&mut self, b: bool)
        ensures
            final(self)@ == (PodcastView { always_dl: b, ..old(self)@ }),
    {
        self.always_dl = b
    }
}

/// What a [`Source`] row holds, as mathematical values.
pub struct SourceView {
    pub id: int,
    pub uri: Seq<char>,
    pub last_modified: Option<Seq<char>>,
    pub http_etag: Option<Seq<char>>,
}

/// A subscribed feed address with the cache validators the server last sent.
pub struct Source {
    id: i32,
    uri: String,
    last_modified: Option<String>,
    http_etag: Option<String>,
}

impl View for Source {
    type V = SourceView;

    closed spec fn view(&self) -> SourceView {
        SourceView {
            id: self.id as int,
            uri: self.uri@,
            last_modified: opt_text(self.last_modified),
            http_etag: opt_text(self.http_etag),
        }
    }
}

impl Clone for Source {
    fn clone(&self) -> (r: Source)
        ensures
            r@ == self@,
    {
        Source {
            id: self.id,
            uri: self.uri.clone(),
            last_modified: opt_clone(&self.last_modified),
            http_etag: opt_clone(&self.http_etag),
        }
    }
}

impl Source {
    /// A source row as stored.
    pub fn new(id: i32, uri: &str, last_modified: Option<&str>, http_etag: Option<&str>) -> (s:
        Source)
        ensures
            s@ == (SourceView {
                id: id as int,
                uri: uri@,
                last_modified: opt_str_text(last_modified),
                http_etag: opt_str_text(http_etag),
            }),
    {
        Source {
            id,
            uri: uri.to_owned(),
            last_modified: opt_owned(last_modified),
            http_etag: opt_owned(http_etag),
        }
    }

    /// The row id.
    pub fn id(&self) -> (r: i32)
        ensures
            r == self@.id,
    {
        self.id
    }

    /// The feed address.
    pub fn uri(&self) -> (r: &str)
        ensures
            r@ == self@.uri,
    {
        self.uri.as_str()
    }

    /// The `Last-Modified` validator last stored.
    pub fn last_modified(&self) -> (r: Option<&str>)
        ensures
            opt_str_text(r) == self@.last_modified,
    {
        opt_as_str(&self.last_modified)
    }

    /// Replaces the `Last-Modified` validator.
    pub fn set_last_modified(&mut self, value: Option<&str>)
        ensures
            final(self)@ == (SourceView { last_modified: opt_str_text(value), ..old(self)@ }),
    {
        self.last_modified = opt_owned(value);
    }

    /// The `ETag` validator last stored.
    pub fn http_etag(&self) -> (r: Option<&str>)
        ensures
            opt_str_text(r) == self@.http_etag,
    {
        opt_as_str(&self.http_etag)
    }

    /// Replaces the `ETag` validator.
    pub fn set_http_etag(&mut self, value: Option<&str>)
        ensures
            final(self)@ == (SourceView { http_etag: opt_str_text(value), ..old(self)@ }),
    {
        self.http_etag = opt_owned(value);
    }
}

} // verus!
