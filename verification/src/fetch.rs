//! Conditional fetching of a source: which validators go out with the
//! request, and what a response does to the source and to the pipeline.

use crate::feed::{parse_channel, rss_channel, FeedError, RawChannel};
use crate::models::{Source, SourceView};
use crate::text::{opt_str_text, opt_text};
use vstd::prelude::*;

verus! {

/// The request headers that make a GET conditional.
#[derive(Clone, Copy, PartialEq, Eq, Structural, Debug)]
pub enum Validator {
    /// `If-None-Match`, carrying the stored entity tag.
    IfNoneMatch,
    /// `If-Modified-Since`, carrying the stored modification date.
    IfModifiedSince,
}

/// One header to attach to the request.
pub struct RequestHeader {
    pub name: Validator,
    pub value: String,
}

impl View for RequestHeader {
    type V = (Validator, Seq<char>);

    open spec fn view(&self) -> (Validator, Seq<char>) {
        (self.name, self.value@)
    }
}

/// What the engine reads of a response.
pub struct HttpResponse {
    /// The status code.
    pub status: u16,
    /// The `ETag` header, if the server sent one.
    pub etag: Option<String>,
    /// The `Last-Modified` header, if the server sent one.
    pub last_modified: Option<String>,
    /// The body as text; empty where the server sent none.
    pub body: String,
}

/// The status code by which a server says that nothing changed.
pub const NOT_MODIFIED: u16 = 304;

/// The headers that go out with the request for a source: one for each
/// validator it has stored, the entity tag first; none on a forced refresh.
pub open spec fn conditional_headers(source: SourceView, ignore_etags: bool) -> Seq<
    (Validator, Seq<char>),
> {
    if ignore_etags {
        Seq::empty()
    } else {
        let tag = match source.http_etag {
            Some(e) => seq![(Validator::IfNoneMatch, e)],
            None => Seq::empty(),
        };
        let date = match source.last_modified {
            Some(d) => seq![(Validator::IfModifiedSince, d)],
            None => Seq::empty(),
        };
        tag + date
    }
}

/// The validator kept after a response: the one the server sent, or the one
/// that was stored where it sent none.
pub open spec fn kept_validator(stored: Option<Seq<char>>, received: Option<Seq<char>>) -> Option<
    Seq<char>,
> {
    match received {
        Some(v) => Some(v),
        None => stored,
    }
}

/// The source after a response with the given validator headers.
pub open spec fn with_validators(
    source: SourceView,
    etag: Option<Seq<char>>,
    last_modified: Option<Seq<char>>,
) -> SourceView {
    SourceView {
        http_etag: kept_validator(source.http_etag, etag),
        last_modified: kept_validator(source.last_modified, last_modified),
        ..source
    }
}

/// A response without content, or with the status that says so, means that
/// the feed did not change. No other status is treated specially.
pub open spec fn not_modified(status: u16, body: Seq<char>) -> bool {
    status == NOT_MODIFIED || body.len() == 0
}

/// A channel together with the source it was fetched from.
pub struct Feed {
    pub channel: RawChannel,
    pub source_id: i32,
}

impl Feed {
    /// Pairs a channel with its source.
    pub fn from_channel_source(channel: RawChannel, source_id: i32) -> (f: Feed)
        ensures
            f.channel == channel,
            f.source_id == source_id,
    {
        Feed { channel, source_id }
    }
}

/// What a response meant for one source.
pub struct Fetched {
    /// The source with the validators to keep.
    pub source: Source,
    /// Whether the validators changed, so that the source has to be saved.
    pub validators_changed: bool,
    /// The feed to index; `Ok(None)` where the server reported no change.
    pub feed: Result<Option<Feed>, FeedError>,
}

impl Source {
    /// The conditional headers for the next request. With `ignore_etags` the
    /// request is unconditional.
    pub fn request_headers(&self, ignore_etags: bool) -> (headers: Vec<RequestHeader>)
        ensures
            headers@.map_values(|h: RequestHeader| h@) == conditional_headers(
                self@,
                ignore_etags,
            ),
    {
        let mut headers: Vec<RequestHeader> = Vec::new();
        if !ignore_etags {
            if let Some(tag) = self.http_etag() {
                headers.push(RequestHeader { name: Validator::IfNoneMatch, value: tag.to_owned() });
            }
            if let Some(date) = self.last_modified() {
                headers.push(
                    RequestHeader { name: Validator::IfModifiedSince, value: date.to_owned() },
                );
            }
        }
        assert(headers@.map_values(|h: RequestHeader| h@) =~= conditional_headers(
            self@,
            ignore_etags,
        ));
        headers
    }

    /// Takes over the validators of a response. A validator that the server
    /// sent replaces the stored one; one it did not send stays. Returns
    /// whether anything changed, that is, whether the source must be saved.
    pub fn update_etag(&mut self, etag: Option<&str>, last_modified: Option<&str>) -> (changed:
        bool)
        ensures
            final(self)@ == with_validators(
                old(self)@,
                opt_str_text(etag),
                opt_str_text(last_modified),
            ),
            changed == (final(self)@ != old(self)@),
    {
        let mut changed = false;
        if let Some(tag) = etag {
            if !crate::text::opt_str_eq(self.http_etag(), Some(tag)) {
                self.set_http_etag(Some(tag));
                changed = true;
            }
        }
        if let Some(date) = last_modified {
            if !crate::text::opt_str_eq(self.last_modified(), Some(date)) {
                self.set_last_modified(Some(date));
                changed = true;
            }
        }
        changed
    }

    /// Digests the response to this source's request: the validators are
    /// taken over whatever the body holds, then the body is parsed unless
    /// the server reported no change.
    pub fn into_feed(self, response: &HttpResponse) -> (r: Fetched)
        ensures
            r.source@ == with_validators(
                self@,
                opt_text(response.etag),
                opt_text(response.last_modified),
            ),
            r.validators_changed == (r.source@ != self@),
            match r.feed {
                Ok(None) => not_modified(response.status, response.body@),
                Ok(Some(f)) => !not_modified(response.status, response.body@) && rss_channel(
                    response.body@,
                ) == Some(f.channel@) && f.source_id == self@.id,
                Err(e) => !not_modified(response.status, response.body@) && rss_channel(
                    response.body@,
                ) is None && e is Malformed,
            },
    {
        let mut source = self;
        let changed = source.update_etag(
            crate::text::opt_as_str(&response.etag),
            crate::text::opt_as_str(&response.last_modified),
        );
        let feed = if response.status == NOT_MODIFIED || response.body.as_str().unicode_len() == 0 {
            Ok(None)
        } else {
            match parse_channel(response.body.as_str()) {
                Ok(channel) => Ok(Some(Feed::from_channel_source(channel, source.id()))),
                Err(e) => Err(e),
            }
        };
        Fetched { source, validators_changed: changed, feed }
    }
}

/// A response that reports no change and carries no validator other than
/// the stored ones leaves the source as it was and hands nothing to the
/// indexer.
pub proof fn lemma_not_modified_keeps_source(source: SourceView, response: HttpResponse)
    requires
        not_modified(response.status, response.body@),
        opt_text(response.etag) is None || opt_text(response.etag) == source.http_etag,
        opt_text(response.last_modified) is None || opt_text(response.last_modified)
            == source.last_modified,
    ensures
        with_validators(source, opt_text(response.etag), opt_text(response.last_modified))
            == source,
{
}

/// A request for a source with a stored entity tag carries that tag, unless
/// the refresh is forced.
pub proof fn lemma_request_carries_etag(source: SourceView, tag: Seq<char>)
    requires
        source.http_etag == Some(tag),
    ensures
        conditional_headers(source, false).contains((Validator::IfNoneMatch, tag)),
        conditional_headers(source, true).len() == 0,
{
    assert(conditional_headers(source, false)[0] == (Validator::IfNoneMatch, tag));
}

} // verus!
