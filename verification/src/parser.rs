//! Show and episode records made from the fields of a feed.
//!
//! Fields a feed may leave out (title, description, publication date, length,
//! guid) come out as `None`. An item that names no media file is refused. An
//! item whose date cannot be read is dated at the time of indexing.

use crate::feed::{
    date_epoch, decimal_i32, episode_epoch, epoch_of, parse_i32, read_date_text, FeedError,
    RawChannel, RawChannelView, RawItem, RawItemView,
};
use crate::models::opt_int;
use crate::text::{opt_clone, opt_text, opt_text_eq};
use vstd::prelude::*;

verus! {

/// A show as parsed from a channel, not yet stored.
pub struct NewPodcast {
    pub title: String,
    pub link: String,
    pub description: String,
    pub image_uri: Option<String>,
    pub source_id: i32,
}

/// A [`NewPodcast`] as mathematical values.
pub struct NewPodcastView {
    pub title: Seq<char>,
    pub link: Seq<char>,
    pub description: Seq<char>,
    pub image_uri: Option<Seq<char>>,
    pub source_id: int,
}

impl View for NewPodcast {
    type V = NewPodcastView;

    open spec fn view(&self) -> NewPodcastView {
        NewPodcastView {
            title: self.title@,
            link: self.link@,
            description: self.description@,
            image_uri: opt_text(self.image_uri),
            source_id: self.source_id as int,
        }
    }
}

/// The show that a channel describes, for the source it was fetched from.
pub open spec fn podcast_of(channel: RawChannelView, source_id: int) -> NewPodcastView {
    NewPodcastView {
        title: channel.title,
        link: channel.link,
        description: channel.description,
        image_uri: channel.image_url,
        source_id,
    }
}

/// Makes the show record of a channel. Nothing can be missing: the XML reader
/// gives an empty text for an absent title, link or description.
pub fn parse_podcast(channel: &RawChannel, source_id: i32) -> (pd: NewPodcast)
    ensures
        pd@ == podcast_of(channel@, source_id as int),
{
    NewPodcast {
        title: channel.title.clone(),
        link: channel.link.clone(),
        description: channel.description.clone(),
        image_uri: opt_clone(&channel.image_url),
        source_id,
    }
}

/// The fields by which a parsed episode is compared with its stored row.
pub struct NewEpisodeMinimal {
    pub title: Option<String>,
    pub uri: String,
    pub published_date: Option<String>,
    pub guid: Option<String>,
    pub length: Option<i32>,
    pub podcast_id: i32,
}

/// A [`NewEpisodeMinimal`] as mathematical values.
pub struct MinimalView {
    pub title: Option<Seq<char>>,
    pub uri: Seq<char>,
    pub published_date: Option<Seq<char>>,
    pub guid: Option<Seq<char>>,
    pub length: Option<int>,
    pub podcast_id: int,
}

impl View for NewEpisodeMinimal {
    type V = MinimalView;

    open spec fn view(&self) -> MinimalView {
        MinimalView {
            title: opt_text(self.title),
            uri: self.uri@,
            published_date: opt_text(self.published_date),
            guid: opt_text(self.guid),
            length: opt_int(self.length),
            podcast_id: self.podcast_id as int,
        }
    }
}

/// The same fields of a stored episode, with the id of its row.
pub struct EpisodeMinimal {
    pub rowid: i32,
    pub title: Option<String>,
    pub uri: String,
    pub published_date: Option<String>,
    pub guid: Option<String>,
    pub length: Option<i32>,
    pub podcast_id: i32,
}

/// An [`EpisodeMinimal`] as mathematical values: the id of the row and the
/// compared fields.
pub struct StoredMinimalView {
    pub rowid: int,
    pub fields: MinimalView,
}

impl View for EpisodeMinimal {
    type V = StoredMinimalView;

    open spec fn view(&self) -> StoredMinimalView {
        StoredMinimalView {
            rowid: self.rowid as int,
            fields: MinimalView {
                title: opt_text(self.title),
                uri: self.uri@,
                published_date: opt_text(self.published_date),
                guid: opt_text(self.guid),
                length: opt_int(self.length),
                podcast_id: self.podcast_id as int,
            },
        }
    }
}

impl EpisodeMinimal {
    /// The id of the stored row.
    pub fn rowid(&self) -> (id: i32)
        ensures
            id == self@.rowid,
    {
        self.rowid
    }

    /// Forgets the row id, leaving the fields that are compared.
    pub fn into_new_minimal(self) -> (m: NewEpisodeMinimal)
        ensures
            m@ == self@.fields,
    {
        NewEpisodeMinimal {
            title: self.title,
            uri: self.uri,
            published_date: self.published_date,
            guid: self.guid,
            length: self.length,
            podcast_id: self.podcast_id,
        }
    }
}

/// An episode as parsed from an item, not yet stored.
pub struct NewEpisode {
    pub title: Option<String>,
    pub uri: String,
    pub description: Option<String>,
    pub published_date: Option<String>,
    pub epoch: i32,
    pub length: Option<i32>,
    pub guid: Option<String>,
    pub podcast_id: i32,
}

/// A [`NewEpisode`] as mathematical values.
pub struct NewEpisodeView {
    pub title: Option<Seq<char>>,
    pub uri: Seq<char>,
    pub description: Option<Seq<char>>,
    pub published_date: Option<Seq<char>>,
    pub epoch: int,
    pub length: Option<int>,
    pub guid: Option<Seq<char>>,
    pub podcast_id: int,
}

impl NewEpisodeView {
    /// The fields that are compared with the stored row.
    pub open spec fn minimal(self) -> MinimalView {
        MinimalView {
            title: self.title,
            uri: self.uri,
            published_date: self.published_date,
            guid: self.guid,
            length: self.length,
            podcast_id: self.podcast_id,
        }
    }
}

impl View for NewEpisode {
    type V = NewEpisodeView;

    open spec fn view(&self) -> NewEpisodeView {
        NewEpisodeView {
            title: opt_text(self.title),
            uri: self.uri@,
            description: opt_text(self.description),
            published_date: opt_text(self.published_date),
            epoch: self.epoch as int,
            length: opt_int(self.length),
            guid: opt_text(self.guid),
            podcast_id: self.podcast_id as int,
        }
    }
}

/// The compared fields of an item that has an enclosure.
pub open spec fn minimal_of(item: RawItemView, podcast_id: int) -> MinimalView {
    MinimalView {
        title: item.title,
        uri: item.enclosure.unwrap().0,
        published_date: item.pub_date,
        guid: item.guid,
        length: decimal_i32(item.enclosure.unwrap().1),
        podcast_id,
    }
}

/// The episode that an item with an enclosure describes, indexed at `now`.
pub open spec fn episode_of(item: RawItemView, podcast_id: int, now: i64) -> NewEpisodeView {
    NewEpisodeView {
        title: item.title,
        uri: item.enclosure.unwrap().0,
        description: item.description,
        published_date: item.pub_date,
        epoch: epoch_of(date_epoch(item.pub_date), now),
        length: decimal_i32(item.enclosure.unwrap().1),
        guid: item.guid,
        podcast_id,
    }
}

impl NewEpisodeMinimal {
    /// Takes the compared fields out of an item. Fails exactly when the item
    /// has no enclosure. A length that is not a decimal number is dropped.
    pub fn new(item: &RawItem, podcast_id: i32) -> (r: Result<NewEpisodeMinimal, FeedError>)
        ensures
            match r {
                Ok(m) => item@.enclosure is Some && m@ == minimal_of(item@, podcast_id as int),
                Err(e) => item@.enclosure is None && e is MissingEnclosure,
            },
    {
        match &item.enclosure {
            None => Err(FeedError::MissingEnclosure),
            Some((url, length)) => Ok(
                NewEpisodeMinimal {
                    title: opt_clone(&item.title),
                    uri: url.clone(),
                    published_date: opt_clone(&item.pub_date),
                    guid: opt_clone(&item.guid),
                    length: parse_i32(length.as_str()),
                    podcast_id,
                },
            ),
        }
    }

    /// Completes the record with the item's description and its epoch.
    pub fn into_new_episode(self, item: &RawItem, now: i64) -> (e: NewEpisode)
        ensures
            e@.minimal() == self@,
            e@.description == item@.description,
            e@.epoch == epoch_of(date_epoch(item@.pub_date), now),
    {
        let parsed = read_date_text(&item.pub_date);
        NewEpisode {
            title: self.title,
            uri: self.uri,
            description: opt_clone(&item.description),
            published_date: self.published_date,
            epoch: episode_epoch(parsed, now),
            length: self.length,
            guid: self.guid,
            podcast_id: self.podcast_id,
        }
    }

    /// Whether two records agree on every compared field.
    pub fn same_as(&self, other: &NewEpisodeMinimal) -> (same: bool)
        ensures
            same == (self@ == other@),
    {
        opt_text_eq(&self.title, &other.title) && self.uri == other.uri && opt_text_eq(
            &self.published_date,
            &other.published_date,
        ) && opt_text_eq(&self.guid, &other.guid) && self.length == other.length
            && self.podcast_id == other.podcast_id
    }
}

/// Makes the episode record of an item, indexed at `now` (UTC seconds).
pub fn parse_episode(item: &RawItem, podcast_id: i32, now: i64) -> (r: Result<
    NewEpisode,
    FeedError,
>)
    ensures
        match r {
            Ok(e) => item@.enclosure is Some && e@ == episode_of(item@, podcast_id as int, now),
            Err(e) => item@.enclosure is None && e is MissingEnclosure,
        },
{
    match NewEpisodeMinimal::new(item, podcast_id) {
        Ok(m) => Ok(m.into_new_episode(item, now)),
        Err(e) => Err(e),
    }
}

} // verus!
