//! The indexing pipeline for one source and for a batch of sources.
//!
//! For every source the steps run in order: fetch, take over the validators,
//! stop if nothing changed, parse, reconcile the show, reconcile the
//! episodes. A failure in one source is recorded for that source and touches
//! no other.

use crate::errors::{ErrorKind, HttpError, SourceError};
use crate::feed::{date_epoch, epoch_of, FeedError, RawItem, RawItemView};
use crate::feed::rss_channel;
use crate::fetch::{
    conditional_headers, not_modified, with_validators, Feed, HttpResponse, RequestHeader,
};
use crate::shows::{
    lemma_show_is_settled, show_applied, show_id, show_is_new, show_with_id, without_show_id,
    ShowTable,
};
use crate::sources::{without_source_id, SourceTable};
use crate::reconcile::without_show;
use crate::covers::{cover_file_name, determin_cover_path, joined, ThumbSize};
use crate::models::{EpisodeView, PodcastView, Source, SourceView};
use crate::parser::{
    episode_of, minimal_of, parse_episode, parse_podcast, podcast_of, MinimalView, NewEpisode,
    NewEpisodeMinimal, NewEpisodeView, NewPodcastView,
};
use crate::reconcile::{
    decide, distinct_keys, entry_matches, lemma_reindex_writes_nothing, max_id, reconciled,
    same_feed, tally, Decision, EpisodeTable, IndexState, Outcome,
};
use crate::text::{opt_as_str, opt_text};
use vstd::prelude::*;

verus! {

/// The record that the compared fields `m` of an item are completed to.
pub open spec fn completed(m: MinimalView, item: RawItemView, now: i64) -> NewEpisodeView {
    NewEpisodeView {
        title: m.title,
        uri: m.uri,
        description: item.description,
        published_date: m.published_date,
        epoch: epoch_of(date_epoch(item.pub_date), now),
        length: m.length,
        guid: m.guid,
        podcast_id: m.podcast_id,
    }
}

/// Decides what to do with a parsed episode: insert it where its title is
/// not stored for its show, overwrite the stored row where a compared field
/// differs, nothing where all agree.
pub fn determine_ep_state(
    ep: NewEpisodeMinimal,
    item: &RawItem,
    table: &EpisodeTable,
    now: i64,
) -> (r: IndexState<NewEpisode>)
    ensures
        match decide(table@, ep@) {
            Decision::Insert => r matches IndexState::Index(n) && n@ == completed(
                ep@,
                item@,
                now,
            ),
            Decision::Overwrite { index } => r matches IndexState::Update((n, id)) && n@
                == completed(ep@, item@, now) && id == table@[index].id,
            Decision::Keep => r is NotChanged,
        },
{
    let exists = table.episode_exists(opt_as_str(&ep.title), ep.podcast_id);
    if !exists {
        IndexState::Index(ep.into_new_episode(item, now))
    } else {
        match table.get_episode_minimal(opt_as_str(&ep.title), ep.podcast_id) {
            Some(old) => {
                let rowid = old.rowid();
                if !ep.same_as(&old.into_new_minimal()) {
                    IndexState::Update((ep.into_new_episode(item, now), rowid))
                } else {
                    IndexState::NotChanged
                }
            },
            None => IndexState::NotChanged,
        }
    }
}

/// Parses one item and decides what to do with it. Fails exactly on an item
/// without an enclosure.
pub fn glue(item: &RawItem, id: i32, table: &EpisodeTable, now: i64) -> (r: Result<
    IndexState<NewEpisode>,
    FeedError,
>)
    ensures
        match r {
            Err(e) => item@.enclosure is None && e is MissingEnclosure,
            Ok(state) => item@.enclosure is Some && match decide(
                table@,
                minimal_of(item@, id as int),
            ) {
                Decision::Insert => state matches IndexState::Index(n) && n@ == episode_of(
                    item@,
                    id as int,
                    now,
                ),
                Decision::Overwrite { index } => state matches IndexState::Update((n, rowid))
                    && n@ == episode_of(item@, id as int, now) && rowid == table@[index].id,
                Decision::Keep => state is NotChanged,
            },
        },
{
    match NewEpisodeMinimal::new(item, id) {
        Ok(e) => Ok(determine_ep_state(e, item, table, now)),
        Err(e) => Err(e),
    }
}

/// The episodes that the items of a feed describe, in feed order. Items
/// without an enclosure describe none.
pub open spec fn feed_episodes(items: Seq<RawItemView>, podcast_id: int, now: i64) -> Seq<
    NewEpisodeView,
>
    decreases items.len(),
{
    if items.len() == 0 {
        Seq::empty()
    } else if items.last().enclosure is Some {
        feed_episodes(items.drop_last(), podcast_id, now).push(
            episode_of(items.last(), podcast_id, now),
        )
    } else {
        feed_episodes(items.drop_last(), podcast_id, now)
    }
}

/// How the episodes of one feed fared.
pub struct IndexReport {
    /// Episodes inserted.
    pub inserted: usize,
    /// Episodes overwritten.
    pub updated: usize,
    /// Episodes that needed no write.
    pub unchanged: usize,
    /// Items passed over because they name no media file.
    pub skipped: usize,
    /// Inserts refused by the table.
    pub refused: usize,
    /// The decision for each item that names a media file, in feed order.
    pub plan: Vec<IndexState<NewEpisode>>,
}

impl IndexReport {
    /// The report counts what reconciling `feed`, made from `items` items,
    /// with `rows` comes to.
    pub open spec fn counts(
        self,
        rows: Seq<EpisodeView>,
        feed: Seq<NewEpisodeView>,
        items: int,
    ) -> bool {
        &&& self.inserted == tally(rows, feed, Outcome::Inserted)
        &&& self.updated == tally(rows, feed, Outcome::Updated)
        &&& self.unchanged == tally(rows, feed, Outcome::Unchanged)
        &&& self.refused == tally(rows, feed, Outcome::Refused)
        &&& self.skipped == items - feed.len()
        &&& self.plan.len() == feed.len()
        &&& forall|k: int|
            0 <= k < feed.len() ==> entry_matches(
                #[trigger] self.plan[k],
                reconciled(rows, feed.subrange(0, k)),
                feed[k],
            )
    }

    /// How many rows were written.
    pub fn writes(&self) -> (n: usize)
        requires
            self.inserted + self.updated <= usize::MAX,
        ensures
            n == self.inserted + self.updated,
    {
        self.inserted + self.updated
    }
}

/// Reconciles the items of a feed with the table, one after the other. An
/// item that cannot be parsed, or whose write is refused, is counted and
/// passed over; the others are not affected.
pub fn index_episodes(table: &mut EpisodeTable, items: &Vec<RawItem>, podcast_id: i32, now: i64) -> (report:
    IndexReport)
    ensures
        ({
            let feed = feed_episodes(
                items@.map_values(|i: RawItem| i@),
                podcast_id as int,
                now,
            );
            &&& final(table)@ == reconciled(old(table)@, feed)
            &&& report.counts(old(table)@, feed, items.len() as int)
        }),
{
    let mut report = IndexReport {
        inserted: 0,
        updated: 0,
        unchanged: 0,
        skipped: 0,
        refused: 0,
        plan: Vec::new(),
    };
    let ghost all = items@.map_values(|i: RawItem| i@);
    let mut i: usize = 0;
    while i < items.len()
        invariant
            i <= items.len(),
            all == items@.map_values(|i: RawItem| i@),
            ({
                let feed = feed_episodes(all.subrange(0, i as int), podcast_id as int, now);
                &&& table@ == reconciled(old(table)@, feed)
                &&& report.inserted == tally(old(table)@, feed, Outcome::Inserted)
                &&& report.updated == tally(old(table)@, feed, Outcome::Updated)
                &&& report.unchanged == tally(old(table)@, feed, Outcome::Unchanged)
                &&& report.refused == tally(old(table)@, feed, Outcome::Refused)
                &&& report.skipped == i - feed.len()
                &&& report.inserted + report.updated + report.unchanged + report.refused
                    == feed.len()
                &&& feed.len() <= i
                &&& report.plan.len() == feed.len()
                &&& forall|k: int|
                    0 <= k < feed.len() ==> entry_matches(
                        #[trigger] report.plan[k],
                        reconciled(old(table)@, feed.subrange(0, k)),
                        feed[k],
                    )
            }),
        decreases items.len() - i,
    {
        proof {
            let next = all.subrange(0, i + 1);
            assert(next.drop_last() == all.subrange(0, i as int));
            assert(next.last() == items@[i as int]@);
            let feed = feed_episodes(all.subrange(0, i as int), podcast_id as int, now);
            if next.last().enclosure is Some {
                let grown = feed.push(episode_of(next.last(), podcast_id as int, now));
                assert(grown.drop_last() == feed);
            }
        }
        match parse_episode(&items[i], podcast_id, now) {
            Err(_) => {
                report.skipped = report.skipped + 1;
            },
            Ok(e) => {
                let ghost feed = feed_episodes(all.subrange(0, i as int), podcast_id as int, now);
                let ghost grown = feed.push(e@);
                let (state, what) = table.index_episode(e);
                report.plan.push(state);
                proof {
                    assert(grown.subrange(0, feed.len() as int) == feed);
                    assert forall|k: int| 0 <= k < grown.len() implies entry_matches(
                        #[trigger] report.plan[k],
                        reconciled(old(table)@, grown.subrange(0, k)),
                        grown[k],
                    ) by {
                        if k < feed.len() {
                            assert(grown.subrange(0, k) == feed.subrange(0, k));
                        }
                    }
                }
                match what {
                    Outcome::Inserted => {
                        report.inserted = report.inserted + 1;
                    },
                    Outcome::Updated => {
                        report.updated = report.updated + 1;
                    },
                    Outcome::Unchanged => {
                        report.unchanged = report.unchanged + 1;
                    },
                    Outcome::Refused => {
                        report.refused = report.refused + 1;
                    },
                }
            },
        }
        i = i + 1;
    }
    assert(all.subrange(0, items.len() as int) == all);
    report
}

/// What indexing one feed wrote.
pub struct FeedReport {
    /// The id the show is stored under.
    pub show_id: i32,
    /// Whether the show was inserted; it was overwritten otherwise.
    pub show_inserted: bool,
    /// How the episodes fared.
    pub episodes: IndexReport,
}

impl FeedReport {
    /// The report tells what indexing the channel against the tables wrote.
    pub open spec fn tells(
        self,
        shows: Seq<PodcastView>,
        rows: Seq<EpisodeView>,
        pd: NewPodcastView,
        items: Seq<RawItemView>,
        now: i64,
    ) -> bool {
        &&& show_id(shows, pd) == Some(self.show_id as int)
        &&& self.show_inserted == show_is_new(shows, pd)
        &&& self.episodes.counts(
            rows,
            feed_episodes(items, self.show_id as int, now),
            items.len() as int,
        )
    }
}

impl Feed {
    /// Indexes a parsed feed: first the show, then its episodes under the
    /// id the show is stored with.
    pub fn index(&self, shows: &mut ShowTable, episodes: &mut EpisodeTable, now: i64) -> (r: Result<
        FeedReport,
        SourceError,
    >)
        ensures
            final(shows)@ == show_applied(
                old(shows)@,
                podcast_of(self.channel@, self.source_id as int),
            ),
            match show_id(old(shows)@, podcast_of(self.channel@, self.source_id as int)) {
                None => r matches Err(e) && e is OutOfIds && final(episodes)@ == old(episodes)@,
                Some(id) => r matches Ok(report) && ({
                    &&& final(episodes)@ == reconciled(
                        old(episodes)@,
                        feed_episodes(self.channel@.items, id, now),
                    )
                    &&& report.tells(
                        old(shows)@,
                        old(episodes)@,
                        podcast_of(self.channel@, self.source_id as int),
                        self.channel@.items,
                        now,
                    )
                }),
            },
    {
        let pd = parse_podcast(&self.channel, self.source_id);
        match shows.index_podcast(&pd) {
            None => Err(SourceError::OutOfIds),
            Some(w) => Ok(
                FeedReport {
                    show_id: w.id,
                    show_inserted: w.inserted,
                    episodes: index_episodes(episodes, &self.channel.items, w.id, now),
                },
            ),
        }
    }
}

/// What the run for one source came to.
pub struct SourceReport {
    /// The source with the validators to keep.
    pub source: Source,
    /// Whether the source has to be saved.
    pub save_source: bool,
    /// What the indexing wrote; `Ok(None)` where nothing had changed.
    pub result: Result<Option<FeedReport>, SourceError>,
}

/// The tables after the run for one source: untouched unless a changed feed
/// arrived and could be read.
pub open spec fn state_after(
    shows: Seq<PodcastView>,
    episodes: Seq<EpisodeView>,
    source_id: int,
    fetched: Result<HttpResponse, HttpError>,
    now: i64,
) -> (Seq<PodcastView>, Seq<EpisodeView>) {
    match fetched {
        Err(_) => (shows, episodes),
        Ok(response) => if not_modified(response.status, response.body@) {
            (shows, episodes)
        } else {
            match rss_channel(response.body@) {
                None => (shows, episodes),
                Some(channel) => {
                    let pd = podcast_of(channel, source_id);
                    (
                        show_applied(shows, pd),
                        match show_id(shows, pd) {
                            None => episodes,
                            Some(id) => reconciled(episodes, feed_episodes(channel.items, id, now)),
                        },
                    )
                },
            }
        },
    }
}

/// `r` is the report of the run for `source` on `fetched`, started with the
/// given tables.
pub open spec fn report_of(
    r: SourceReport,
    shows: Seq<PodcastView>,
    episodes: Seq<EpisodeView>,
    source: SourceView,
    fetched: Result<HttpResponse, HttpError>,
    now: i64,
) -> bool {
    match fetched {
        Err(e) => {
            &&& r.source@ == source
            &&& !r.save_source
            &&& r.result matches Err(SourceError::Http(x)) && x == e
        },
        Ok(response) => {
            &&& r.source@ == with_validators(
                source,
                opt_text(response.etag),
                opt_text(response.last_modified),
            )
            &&& r.save_source == (r.source@ != source)
            &&& if not_modified(response.status, response.body@) {
                &&& r.result matches Ok(None)
            } else {
                match rss_channel(response.body@) {
                    None => {
                        &&& r.result matches Err(SourceError::Feed(e)) && e is Malformed
                    },
                    Some(channel) => {
                        match show_id(shows, podcast_of(channel, source.id)) {
                            None => {
                                &&& r.result matches Err(e) && e is OutOfIds
                            },
                            Some(id) => {
                                &&& r.result matches Ok(Some(report)) && report.tells(
                                    shows,
                                    episodes,
                                    podcast_of(channel, source.id),
                                    channel.items,
                                    now,
                                )
                            },
                        }
                    },
                }
            }
        },
    }
}

/// Runs the pipeline for one source on what its request brought: takes over
/// the validators, stops where nothing changed, parses, and indexes. Every
/// failure ends up in the report of this source.
pub fn process_source(
    source: Source,
    fetched: Result<HttpResponse, HttpError>,
    shows: &mut ShowTable,
    episodes: &mut EpisodeTable,
    now: i64,
) -> (r: SourceReport)
    ensures
        report_of(r, old(shows)@, old(episodes)@, source@, fetched, now),
        (final(shows)@, final(episodes)@) == state_after(
            old(shows)@,
            old(episodes)@,
            source@.id,
            fetched,
            now,
        ),
{
    match fetched {
        Err(e) => SourceReport { source, save_source: false, result: Err(SourceError::Http(e)) },
        Ok(response) => {
            let fetched = source.into_feed(&response);
            let result = match fetched.feed {
                Ok(None) => Ok(None),
                Err(e) => Err(SourceError::Feed(e)),
                Ok(Some(feed)) => match feed.index(shows, episodes, now) {
                    Ok(report) => Ok(Some(report)),
                    Err(e) => Err(e),
                },
            };
            SourceReport {
                source: fetched.source,
                save_source: fetched.validators_changed,
                result,
            }
        },
    }
}

/// The time of indexing only dates the items that have no readable date;
/// the fields that are compared do not depend on it.
pub proof fn lemma_feed_episodes_any_time(
    items: Seq<RawItemView>,
    podcast_id: int,
    first: i64,
    second: i64,
)
    ensures
        same_feed(
            feed_episodes(items, podcast_id, first),
            feed_episodes(items, podcast_id, second),
        ),
    decreases items.len(),
{
    if items.len() > 0 {
        lemma_feed_episodes_any_time(items.drop_last(), podcast_id, first, second);
    }
}

/// A response that reports no change and carries no validator other than
/// the stored ones changes nothing at all: no show, no episode, and not
/// the source.
pub proof fn lemma_not_modified_changes_nothing(
    shows: Seq<PodcastView>,
    episodes: Seq<EpisodeView>,
    source: SourceView,
    response: HttpResponse,
    now: i64,
)
    requires
        not_modified(response.status, response.body@),
        opt_text(response.etag) is None || opt_text(response.etag) == source.http_etag,
        opt_text(response.last_modified) is None || opt_text(response.last_modified)
            == source.last_modified,
    ensures
        state_after(shows, episodes, source.id, Ok(response), now) == (shows, episodes),
        with_validators(source, opt_text(response.etag), opt_text(response.last_modified))
            == source,
{
}

/// Indexing is idempotent: when the run for a source has indexed a feed
/// whose episodes have distinct titles, a second run on the same document
/// leaves every show and every episode as it is, at whatever time it
/// happens. The tables must have had ids left for the first run.
pub proof fn lemma_second_run_changes_nothing(
    shows: Seq<PodcastView>,
    episodes: Seq<EpisodeView>,
    source_id: int,
    response: HttpResponse,
    first: i64,
    second: i64,
)
    requires
        !not_modified(response.status, response.body@),
        rss_channel(response.body@) matches Some(channel) && show_id(
            shows,
            podcast_of(channel, source_id),
        ) matches Some(id) && distinct_keys(feed_episodes(channel.items, id, first)) && max_id(
            episodes,
        ) + feed_episodes(channel.items, id, first).len() <= i32::MAX,
    ensures
        ({
            let once = state_after(shows, episodes, source_id, Ok(response), first);
            state_after(once.0, once.1, source_id, Ok(response), second) == once
        }),
{
    let channel = rss_channel(response.body@).unwrap();
    let pd = podcast_of(channel, source_id);
    let id = show_id(shows, pd).unwrap();
    lemma_show_is_settled(shows, pd);
    lemma_feed_episodes_any_time(channel.items, id, first, second);
    lemma_reindex_writes_nothing(
        episodes,
        feed_episodes(channel.items, id, first),
        feed_episodes(channel.items, id, second),
    );
}

/// A source together with what its request brought.
pub struct Job {
    pub source: Source,
    pub fetched: Result<HttpResponse, HttpError>,
}

/// The tables after the jobs of a batch have run, one after the other.
pub open spec fn batch_state(
    shows: Seq<PodcastView>,
    episodes: Seq<EpisodeView>,
    jobs: Seq<Job>,
    now: i64,
) -> (Seq<PodcastView>, Seq<EpisodeView>)
    decreases jobs.len(),
{
    if jobs.len() == 0 {
        (shows, episodes)
    } else {
        let before = batch_state(shows, episodes, jobs.drop_last(), now);
        state_after(before.0, before.1, jobs.last().source@.id, jobs.last().fetched, now)
    }
}

/// Runs the pipeline for every source of a batch. Each source gets its
/// report, whatever became of the others: a failure is recorded where it
/// happened and the batch goes on. The result is there when all have run.
pub fn pipeline(
    jobs: Vec<Job>,
    shows: &mut ShowTable,
    episodes: &mut EpisodeTable,
    now: i64,
) -> (reports: Vec<SourceReport>)
    ensures
        reports.len() == jobs.len(),
        (final(shows)@, final(episodes)@) == batch_state(
            old(shows)@,
            old(episodes)@,
            jobs@,
            now,
        ),
        forall|i: int|
            0 <= i < jobs.len() ==> {
                let before = batch_state(
                    old(shows)@,
                    old(episodes)@,
                    jobs@.subrange(0, i),
                    now,
                );
                report_of(
                    #[trigger] reports[i],
                    before.0,
                    before.1,
                    jobs[i].source@,
                    jobs[i].fetched,
                    now,
                )
            },
{
    let ghost all = jobs@;
    let n = jobs.len();
    let mut jobs = jobs;
    let mut queue: Vec<Job> = Vec::new();
    while jobs.len() > 0
        invariant
            jobs.len() + queue.len() == n,
            n == all.len(),
            forall|k: int| 0 <= k < jobs.len() ==> jobs[k] == all[k],
            forall|k: int| 0 <= k < queue.len() ==> queue[k] == all[n - 1 - k],
        decreases jobs.len(),
    {
        let job = jobs.pop().unwrap();
        queue.push(job);
    }
    let mut reports: Vec<SourceReport> = Vec::new();
    while queue.len() > 0
        invariant
            n == all.len(),
            reports.len() + queue.len() == n,
            forall|k: int| 0 <= k < queue.len() ==> queue[k] == all[n - 1 - k],
            (shows@, episodes@) == batch_state(
                old(shows)@,
                old(episodes)@,
                all.subrange(0, reports.len() as int),
                now,
            ),
            forall|i: int|
                0 <= i < reports.len() ==> {
                    let before = batch_state(
                        old(shows)@,
                        old(episodes)@,
                        all.subrange(0, i),
                        now,
                    );
                    report_of(
                        #[trigger] reports[i],
                        before.0,
                        before.1,
                        all[i].source@,
                        all[i].fetched,
                        now,
                    )
                },
        decreases queue.len(),
    {
        let ghost i = reports.len() as int;
        let job = queue.pop().unwrap();
        assert(job == all[i]);
        proof {
            let next = all.subrange(0, i + 1);
            assert(next.drop_last() == all.subrange(0, i));
            assert(next.last() == all[i]);
        }
        let report = process_source(job.source, job.fetched, shows, episodes, now);
        reports.push(report);
    }
    assert(all.subrange(0, n as int) == all);
    reports
}

/// The request to send for a source.
pub struct Request {
    /// The source the request is for.
    pub source_id: i32,
    /// The address to GET.
    pub uri: String,
    /// The conditional headers to attach.
    pub headers: Vec<RequestHeader>,
}

/// The request for one source. With `ignore_etags` it carries no validator,
/// so that the server sends the feed whatever it thinks we have.
pub fn request_for(source: &Source, ignore_etags: bool) -> (r: Request)
    ensures
        r.source_id == source@.id,
        r.uri@ == source@.uri,
        r.headers@.map_values(|h: RequestHeader| h@) == conditional_headers(
            source@,
            ignore_etags,
        ),
{
    Request {
        source_id: source.id(),
        uri: source.uri().to_owned(),
        headers: source.request_headers(ignore_etags),
    }
}

/// The requests for a batch of sources, one for each, in their order.
pub fn plan_requests(sources: &Vec<Source>, ignore_etags: bool) -> (requests: Vec<Request>)
    ensures
        requests.len() == sources.len(),
        forall|i: int|
            0 <= i < sources.len() ==> {
                &&& (#[trigger] requests[i]).source_id == sources[i]@.id
                &&& requests[i].uri@ == sources[i]@.uri
                &&& requests[i].headers@.map_values(|h: RequestHeader| h@) == conditional_headers(
                    sources[i]@,
                    ignore_etags,
                )
            },
{
    let mut requests: Vec<Request> = Vec::new();
    let mut i: usize = 0;
    while i < sources.len()
        invariant
            i <= sources.len(),
            requests.len() == i,
            forall|k: int|
                0 <= k < i ==> {
                    &&& (#[trigger] requests[k]).source_id == sources[k]@.id
                    &&& requests[k].uri@ == sources[k]@.uri
                    &&& requests[k].headers@.map_values(|h: RequestHeader| h@)
                        == conditional_headers(sources[k]@, ignore_etags)
                },
        decreases sources.len() - i,
    {
        requests.push(request_for(&sources[i], ignore_etags));
        i = i + 1;
    }
    requests
}

/// Gathers the results of a fixed number of tasks in the order in which
/// they settle. It is complete when every task has settled, and not before.
pub struct Collector<T> {
    pending: usize,
    done: Vec<T>,
}

impl<T> Collector<T> {
    /// The number of tasks that have not settled yet.
    pub closed spec fn pending(&self) -> nat {
        self.pending as nat
    }

    /// The results so far, in the order in which they came.
    pub closed spec fn settled(&self) -> Seq<T> {
        self.done@
    }

    /// The number of tasks the collector was made for: those that have
    /// settled and those that have not.
    pub open spec fn tasks(&self) -> nat {
        self.pending() + self.settled().len()
    }

    /// A collector waiting for `tasks` results.
    pub fn new(tasks: usize) -> (c: Collector<T>)
        ensures
            c.pending() == tasks,
            c.settled().len() == 0,
            c.tasks() == tasks,
    {
        Collector { pending: tasks, done: Vec::new() }
    }

    /// Records the result of a task that settled. Where no task is pending
    /// the result is handed back and nothing changes.
    pub fn settle(&mut self, result: T) -> (rejected: Option<T>)
        ensures
            old(self).pending() > 0 ==> {
                &&& rejected is None
                &&& final(self).pending() == old(self).pending() - 1
                &&& final(self).settled() == old(self).settled().push(result)
            },
            old(self).pending() == 0 ==> rejected == Some(result) && final(self).pending() == 0
                && final(self).settled() == old(self).settled(),
            final(self).tasks() == old(self).tasks(),
    {
        if self.pending == 0 {
            Some(result)
        } else {
            self.pending = self.pending - 1;
            self.done.push(result);
            None
        }
    }

    /// Whether every task has settled.
    pub fn is_complete(&self) -> (complete: bool)
        ensures
            complete == (self.pending() == 0),
    {
        self.pending == 0
    }

    /// The results, once every task has settled: as many as the tasks the
    /// collector was made for. The collector itself while some task is
    /// pending.
    pub fn into_results(self) -> (r: Result<Vec<T>, Collector<T>>)
        ensures
            match r {
                Ok(results) => self.pending() == 0 && results@ == self.settled()
                    && results.len() == self.tasks(),
                Err(c) => self.pending() > 0 && c == self,
            },
    {
        if self.pending == 0 {
            Ok(self.done)
        } else {
            Err(self)
        }
    }
}

/// The failures among the reports of a batch: for each failed source its id
/// and the kind of its failure, in the order of the reports.
pub open spec fn failures_of(reports: Seq<SourceReport>) -> Seq<(int, ErrorKind)>
    decreases reports.len(),
{
    if reports.len() == 0 {
        Seq::empty()
    } else {
        let rest = failures_of(reports.drop_last());
        match reports.last().result {
            Err(e) => rest.push((reports.last().source@.id, e.spec_kind())),
            Ok(_) => rest,
        }
    }
}

/// Lists the sources of a batch that failed, with the kind of each failure.
pub fn collect_failures(reports: &Vec<SourceReport>) -> (failures: Vec<(i32, ErrorKind)>)
    ensures
        failures@.map_values(|f: (i32, ErrorKind)| (f.0 as int, f.1)) == failures_of(reports@),
{
    let mut failures: Vec<(i32, ErrorKind)> = Vec::new();
    let mut i: usize = 0;
    while i < reports.len()
        invariant
            i <= reports.len(),
            failures@.map_values(|f: (i32, ErrorKind)| (f.0 as int, f.1)) == failures_of(
                reports@.subrange(0, i as int),
            ),
        decreases reports.len() - i,
    {
        proof {
            let next = reports@.subrange(0, i + 1);
            assert(next.drop_last() == reports@.subrange(0, i as int));
            assert(next.last() == reports@[i as int]);
        }
        let ghost before = failures@;
        match &reports[i].result {
            Err(e) => {
                failures.push((reports[i].source.id(), e.kind()));
                assert(failures@.map_values(|f: (i32, ErrorKind)| (f.0 as int, f.1))
                    =~= before.map_values(|f: (i32, ErrorKind)| (f.0 as int, f.1)).push(
                    (reports@[i as int].source@.id, e.spec_kind()),
                ));
            },
            Ok(_) => {},
        }
        i = i + 1;
    }
    assert(reports@.subrange(0, reports.len() as int) == reports@);
    failures
}

/// Unsubscribes from a show: the show goes, and with it its episodes and
/// the source it came from. Returns whether there was such a show; where
/// there was none, episodes that name the id go all the same and the
/// sources stay.
pub fn delete_show(
    shows: &mut ShowTable,
    episodes: &mut EpisodeTable,
    sources: &mut SourceTable,
    show_id: i32,
) -> (found: bool)
    ensures
        found == show_with_id(old(shows)@, show_id as int).is_some(),
        final(shows)@ == without_show_id(old(shows)@, show_id as int),
        final(episodes)@ == without_show(old(episodes)@, show_id as int),
        final(sources)@ == (match show_with_id(old(shows)@, show_id as int) {
            Some(i) => without_source_id(old(sources)@, old(shows)@[i].source_id),
            None => old(sources)@,
        }),
{
    episodes.delete_show_episodes(show_id);
    match shows.delete_show(show_id) {
        Some(source_id) => {
            sources.delete_source(source_id);
            true
        },
        None => false,
    }
}

/// The files that the cover cache keeps for a show: the full-size cover,
/// then the thumbnail of each size from the smallest.
pub fn cover_files(covers_dir: &str, show_id: i32) -> (files: Vec<String>)
    ensures
        files.len() == 5,
        files[0]@ == joined(covers_dir@, cover_file_name(show_id as int, None)),
        files[1]@ == joined(
            covers_dir@,
            cover_file_name(show_id as int, Some(ThumbSize::Thumb64)),
        ),
        files[2]@ == joined(
            covers_dir@,
            cover_file_name(show_id as int, Some(ThumbSize::Thumb128)),
        ),
        files[3]@ == joined(
            covers_dir@,
            cover_file_name(show_id as int, Some(ThumbSize::Thumb256)),
        ),
        files[4]@ == joined(
            covers_dir@,
            cover_file_name(show_id as int, Some(ThumbSize::Thumb512)),
        ),
{
    let mut files: Vec<String> = Vec::new();
    files.push(determin_cover_path(covers_dir, show_id, None));
    files.push(determin_cover_path(covers_dir, show_id, Some(ThumbSize::Thumb64)));
    files.push(determin_cover_path(covers_dir, show_id, Some(ThumbSize::Thumb128)));
    files.push(determin_cover_path(covers_dir, show_id, Some(ThumbSize::Thumb256)));
    files.push(determin_cover_path(covers_dir, show_id, Some(ThumbSize::Thumb512)));
    files
}

/// The sources to refresh: the ones asked for, or all that are subscribed
/// where none was named.
pub fn refresh_feed(requested: Option<Vec<Source>>, all: Vec<Source>) -> (sources: Vec<Source>)
    ensures
        sources == (match requested {
            Some(s) => s,
            None => all,
        }),
{
    match requested {
        Some(s) => s,
        None => all,
    }
}

/// The tables after a list of parsed feeds has been indexed, one feed after
/// the other.
pub open spec fn feeds_state(
    shows: Seq<PodcastView>,
    episodes: Seq<EpisodeView>,
    feeds: Seq<Feed>,
    now: i64,
) -> (Seq<PodcastView>, Seq<EpisodeView>)
    decreases feeds.len(),
{
    if feeds.len() == 0 {
        (shows, episodes)
    } else {
        let before = feeds_state(shows, episodes, feeds.drop_last(), now);
        let pd = podcast_of(feeds.last().channel@, feeds.last().source_id as int);
        (
            show_applied(before.0, pd),
            match show_id(before.0, pd) {
                None => before.1,
                Some(id) => reconciled(before.1, feed_episodes(feeds.last().channel@.items, id, now)),
            },
        )
    }
}

/// Indexes a list of parsed feeds, one after the other: for each its show,
/// then its episodes. A feed that cannot be stored is reported at its place
/// and the loop goes on with the next.
pub fn index_loop(
    feeds: &Vec<Feed>,
    shows: &mut ShowTable,
    episodes: &mut EpisodeTable,
    now: i64,
) -> (reports: Vec<Result<FeedReport, SourceError>>)
    ensures
        reports.len() == feeds.len(),
        (final(shows)@, final(episodes)@) == feeds_state(
            old(shows)@,
            old(episodes)@,
            feeds@,
            now,
        ),
        forall|i: int|
            0 <= i < feeds.len() ==> {
                let before = feeds_state(old(shows)@, old(episodes)@, feeds@.subrange(0, i), now);
                let pd = podcast_of(feeds[i].channel@, feeds[i].source_id as int);
                match #[trigger] reports[i] {
                    Ok(report) => report.tells(before.0, before.1, pd, feeds[i].channel@.items, now),
                    Err(e) => e is OutOfIds && show_id(before.0, pd) is None,
                }
            },
{
    let mut reports: Vec<Result<FeedReport, SourceError>> = Vec::new();
    let mut i: usize = 0;
    while i < feeds.len()
        invariant
            i <= feeds.len(),
            reports.len() == i,
            (shows@, episodes@) == feeds_state(
                old(shows)@,
                old(episodes)@,
                feeds@.subrange(0, i as int),
                now,
            ),
            forall|k: int|
                0 <= k < i ==> {
                    let before = feeds_state(
                        old(shows)@,
                        old(episodes)@,
                        feeds@.subrange(0, k),
                        now,
                    );
                    let pd = podcast_of(feeds[k].channel@, feeds[k].source_id as int);
                    match #[trigger] reports[k] {
                        Ok(report) => report.tells(
                            before.0,
                            before.1,
                            pd,
                            feeds[k].channel@.items,
                            now,
                        ),
                        Err(e) => e is OutOfIds && show_id(before.0, pd) is None,
                    }
                },
        decreases feeds.len() - i,
    {
        proof {
            let next = feeds@.subrange(0, i + 1);
            assert(next.drop_last() == feeds@.subrange(0, i as int));
            assert(next.last() == feeds@[i as int]);
        }
        let report = feeds[i].index(shows, episodes, now);
        reports.push(report);
        i = i + 1;
    }
    assert(feeds@.subrange(0, feeds.len() as int) == feeds@);
    reports
}

} // verus!
