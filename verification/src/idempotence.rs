//! Running a batch twice: when every source of a batch has been indexed, a
//! second run on the same documents writes nothing.

use crate::feed::{rss_channel, RawItemView};
use crate::fetch::not_modified;
use crate::models::{EpisodeView, PodcastView};
use crate::parser::{podcast_of, MinimalView, NewEpisodeView, NewPodcastView};
use crate::pipeline::{
    batch_state, feed_episodes, lemma_feed_episodes_any_time, state_after, Job,
};
use crate::reconcile::{
    decide, distinct_keys, lemma_applied_keeps_others, lemma_reconciled_max_id,
    lemma_reconciled_settles, lemma_settled_writes_nothing, max_id, reconciled, settled,
};
use crate::shows::{
    lemma_show_lookup, overwritten_show, show_applied, show_id, show_lookup, show_max_id,
};
use vstd::prelude::*;

verus! {

/// No two shows have the same id.
pub open spec fn unique_show_ids(shows: Seq<PodcastView>) -> bool {
    forall|i: int, j: int|
        0 <= i < j < shows.len() ==> (#[trigger] shows[i]).id != (#[trigger] shows[j]).id
}

/// No two items that name a media file have the same title.
pub open spec fn distinct_titles(items: Seq<RawItemView>) -> bool {
    forall|i: int, j: int|
        0 <= i < j < items.len() && (#[trigger] items[i]).enclosure is Some && (
        #[trigger] items[j]).enclosure is Some ==> items[i].title != items[j].title
}

/// Some item that names a media file has this title.
pub open spec fn names_title(items: Seq<RawItemView>, title: Option<Seq<char>>) -> bool {
    exists|i: int|
        0 <= i < items.len() && (#[trigger] items[i]).enclosure is Some && items[i].title == title
}

/// No id of a show is larger than the largest.
pub proof fn lemma_show_ids_bounded(shows: Seq<PodcastView>)
    ensures
        forall|i: int| 0 <= i < shows.len() ==> (#[trigger] shows[i]).id <= show_max_id(shows),
    decreases shows.len(),
{
    if shows.len() > 0 {
        lemma_show_ids_bounded(shows.drop_last());
        assert forall|i: int| 0 <= i < shows.len() implies (#[trigger] shows[i]).id <= show_max_id(
            shows,
        ) by {
            if i < shows.len() - 1 {
                assert(shows.drop_last()[i] == shows[i]);
            }
        }
    }
}

proof fn lemma_show_max_id_by_ids(a: Seq<PodcastView>, b: Seq<PodcastView>)
    requires
        a.len() == b.len(),
        forall|i: int| 0 <= i < a.len() ==> a[i].id == b[i].id,
    ensures
        show_max_id(a) == show_max_id(b),
    decreases a.len(),
{
    if a.len() > 0 {
        lemma_show_max_id_by_ids(a.drop_last(), b.drop_last());
    }
}

/// What reconciling a show does to the table: rows keep their place, their
/// id and their title; only the row of that title changes; ids stay
/// distinct; and at most one id is taken.
pub proof fn lemma_show_applied_frame(shows: Seq<PodcastView>, pd: NewPodcastView)
    ensures
        ({
            let after = show_applied(shows, pd);
            &&& after.len() >= shows.len()
            &&& forall|i: int|
                0 <= i < shows.len() ==> (#[trigger] after[i]).id == shows[i].id && after[i].title
                    == shows[i].title && (shows[i].title != pd.title ==> after[i] == shows[i])
            &&& show_max_id(shows) <= show_max_id(after) <= show_max_id(shows) + 1
            &&& unique_show_ids(shows) ==> unique_show_ids(after)
            &&& show_id(shows, pd) matches Some(id) ==> (show_lookup(after, pd.title) matches Some(
                k,
            ) && 0 <= k < after.len() && after[k].id == id && overwritten_show(after[k], pd)
                == after[k])
        }),
{
    lemma_show_lookup(shows, pd.title);
    lemma_show_ids_bounded(shows);
    let after = show_applied(shows, pd);
    lemma_show_lookup(after, pd.title);
    match show_lookup(shows, pd.title) {
        Some(i) => {
            lemma_show_max_id_by_ids(shows, after);
            assert(after[i].title == pd.title);
        },
        None => {
            if show_max_id(shows) < i32::MAX {
                assert(after.drop_last() == shows);
                let last = shows.len() as int;
                assert(after[last].title == pd.title);
                assert forall|i: int, j: int| 0 <= i < j < after.len() && unique_show_ids(
                    shows,
                ) implies (#[trigger] after[i]).id != (#[trigger] after[j]).id by {
                    if j == last {
                        assert(shows[i].id <= show_max_id(shows));
                    } else {
                        assert(shows[i].id != shows[j].id);
                    }
                }
            }
        },
    }
}

/// Reconciling a show leaves every show of another title where it was.
pub proof fn lemma_show_lookup_stays(
    shows: Seq<PodcastView>,
    pd: NewPodcastView,
    title: Seq<char>,
)
    requires
        show_lookup(shows, title) is Some,
    ensures
        show_lookup(show_applied(shows, pd), title) == show_lookup(shows, title),
{
    lemma_show_lookup(shows, title);
    lemma_show_applied_frame(shows, pd);
    let after = show_applied(shows, pd);
    lemma_show_lookup(after, title);
    let i = show_lookup(shows, title).unwrap();
    assert(after[i].title == title);
    match show_lookup(after, title) {
        Some(k) => {
            if k < i {
                assert(after[k].title == shows[k].title);
            }
        },
        None => {},
    }
}

/// Reconciling a feed leaves the decision for every record alone whose key
/// the feed does not hold.
pub proof fn lemma_reconciled_keeps_others(
    rows: Seq<EpisodeView>,
    feed: Seq<NewEpisodeView>,
    other: MinimalView,
)
    requires
        forall|k: int|
            0 <= k < feed.len() ==> (#[trigger] feed[k]).title != other.title
                || feed[k].podcast_id != other.podcast_id,
    ensures
        decide(reconciled(rows, feed), other) == decide(rows, other),
    decreases feed.len(),
{
    if feed.len() > 0 {
        let rest = feed.drop_last();
        assert forall|k: int| 0 <= k < rest.len() implies (#[trigger] rest[k]).title != other.title
            || rest[k].podcast_id != other.podcast_id by {
            assert(rest[k] == feed[k]);
        }
        lemma_reconciled_keeps_others(rows, rest, other);
        let last = feed.last();
        assert(last == feed[feed.len() - 1]);
        lemma_applied_keeps_others(reconciled(rows, rest), last, other);
    }
}

/// What the episodes of a feed are: no more than its items, all of the show
/// they are indexed under, each with the title of an item that names a media
/// file; and with distinct keys where those items have distinct titles.
pub proof fn lemma_feed_facts(items: Seq<RawItemView>, podcast_id: int, now: i64)
    ensures
        ({
            let feed = feed_episodes(items, podcast_id, now);
            &&& feed.len() <= items.len()
            &&& forall|k: int|
                0 <= k < feed.len() ==> (#[trigger] feed[k]).podcast_id == podcast_id
                    && names_title(items, feed[k].title)
            &&& distinct_titles(items) ==> distinct_keys(feed)
        }),
    decreases items.len(),
{
    if items.len() > 0 {
        let rest = items.drop_last();
        let last = items.last();
        lemma_feed_facts(rest, podcast_id, now);
        let before = feed_episodes(rest, podcast_id, now);
        let feed = feed_episodes(items, podcast_id, now);
        assert forall|k: int| 0 <= k < feed.len() implies (#[trigger] feed[k]).podcast_id
            == podcast_id && names_title(items, feed[k].title) by {
            if k < before.len() {
                assert(feed[k] == before[k]);
                let i = choose|i: int|
                    0 <= i < rest.len() && (#[trigger] rest[i]).enclosure is Some && rest[i].title
                        == before[k].title;
                assert(items[i] == rest[i]);
            } else {
                assert(items[items.len() - 1] == last);
            }
        }
        if distinct_titles(items) {
            assert(distinct_titles(rest)) by {
                assert forall|i: int, j: int|
                    0 <= i < j < rest.len() && (#[trigger] rest[i]).enclosure is Some && (
                    #[trigger] rest[j]).enclosure is Some implies rest[i].title
                    != rest[j].title by {
                    assert(rest[i] == items[i] && rest[j] == items[j]);
                }
            }
            assert forall|a: int, b: int| 0 <= a < b < feed.len() implies (#[trigger] feed[a]).title
                != (#[trigger] feed[b]).title || feed[a].podcast_id != feed[b].podcast_id by {
                if b < before.len() {
                    assert(feed[a] == before[a] && feed[b] == before[b]);
                } else {
                    assert(feed[a] == before[a]);
                    let i = choose|i: int|
                        0 <= i < rest.len() && (#[trigger] rest[i]).enclosure is Some
                            && rest[i].title == before[a].title;
                    assert(items[i] == rest[i]);
                    assert(items[items.len() - 1] == last);
                    assert(items[i].title != items[items.len() - 1].title);
                }
            }
        }
    }
}

/// The show and the items that a job hands to the indexer: those of its
/// document, where the response carries a changed feed that can be read.
pub open spec fn job_feed(job: Job) -> Option<(NewPodcastView, Seq<RawItemView>)> {
    match job.fetched {
        Err(_) => None,
        Ok(response) => if not_modified(response.status, response.body@) {
            None
        } else {
            match rss_channel(response.body@) {
                None => None,
                Some(channel) => Some((podcast_of(channel, job.source@.id), channel.items)),
            }
        },
    }
}

/// The tables after a show and its items have been indexed.
pub open spec fn indexed(
    shows: Seq<PodcastView>,
    episodes: Seq<EpisodeView>,
    pd: NewPodcastView,
    items: Seq<RawItemView>,
    now: i64,
) -> (Seq<PodcastView>, Seq<EpisodeView>) {
    (
        show_applied(shows, pd),
        match show_id(shows, pd) {
            None => episodes,
            Some(id) => reconciled(episodes, feed_episodes(items, id, now)),
        },
    )
}

/// The run for a job indexes what the job hands to the indexer, and does
/// nothing where it hands over nothing.
pub proof fn lemma_state_after_is_indexed(
    shows: Seq<PodcastView>,
    episodes: Seq<EpisodeView>,
    job: Job,
    now: i64,
)
    ensures
        state_after(shows, episodes, job.source@.id, job.fetched, now) == (match job_feed(job) {
            None => (shows, episodes),
            Some(feed) => indexed(shows, episodes, feed.0, feed.1, now),
        }),
{
}

/// The tables hold a feed as it is: its show is stored with the link, the
/// description and the image it has, and every one of its episodes finds a
/// row that agrees with it.
pub open spec fn feed_settled(
    shows: Seq<PodcastView>,
    episodes: Seq<EpisodeView>,
    pd: NewPodcastView,
    items: Seq<RawItemView>,
    now: i64,
) -> bool {
    show_lookup(shows, pd.title) matches Some(i) && overwritten_show(shows[i], pd) == shows[i]
        && settled(episodes, feed_episodes(items, shows[i].id, now))
}

/// Every job of the batch that hands a feed to the indexer finds its feed
/// held by the tables as it is.
pub open spec fn all_settled(
    shows: Seq<PodcastView>,
    episodes: Seq<EpisodeView>,
    jobs: Seq<Job>,
    now: i64,
) -> bool {
    forall|j: int|
        0 <= j < jobs.len() ==> (job_feed(#[trigger] jobs[j]) matches Some(feed) ==> feed_settled(
            shows,
            episodes,
            feed.0,
            feed.1,
            now,
        ))
}

/// Indexing a feed that the tables hold as it is changes nothing.
pub proof fn lemma_settled_feed_writes_nothing(
    shows: Seq<PodcastView>,
    episodes: Seq<EpisodeView>,
    pd: NewPodcastView,
    items: Seq<RawItemView>,
    now: i64,
)
    requires
        feed_settled(shows, episodes, pd, items, now),
    ensures
        indexed(shows, episodes, pd, items, now) == (shows, episodes),
{
    lemma_show_lookup(shows, pd.title);
    let i = show_lookup(shows, pd.title).unwrap();
    assert(shows.update(i, overwritten_show(shows[i], pd)) =~= shows);
    lemma_settled_writes_nothing(episodes, feed_episodes(items, shows[i].id, now));
}

/// Whether the tables hold a feed as it is does not depend on the time of
/// indexing.
pub proof fn lemma_settled_at_any_time(
    shows: Seq<PodcastView>,
    episodes: Seq<EpisodeView>,
    pd: NewPodcastView,
    items: Seq<RawItemView>,
    first: i64,
    second: i64,
)
    requires
        feed_settled(shows, episodes, pd, items, first),
    ensures
        feed_settled(shows, episodes, pd, items, second),
{
    lemma_show_lookup(shows, pd.title);
    let i = show_lookup(shows, pd.title).unwrap();
    let one = feed_episodes(items, shows[i].id, first);
    let two = feed_episodes(items, shows[i].id, second);
    lemma_feed_episodes_any_time(items, shows[i].id, first, second);
    assert forall|j: int| 0 <= j < two.len() implies decide(
        episodes,
        (#[trigger] two[j]).minimal(),
    ) is Keep by {
        assert(one[j].minimal() == two[j].minimal());
    }
}

/// A batch whose feeds the tables all hold as they are changes nothing.
pub proof fn lemma_settled_batch_writes_nothing(
    shows: Seq<PodcastView>,
    episodes: Seq<EpisodeView>,
    jobs: Seq<Job>,
    now: i64,
)
    requires
        all_settled(shows, episodes, jobs, now),
    ensures
        batch_state(shows, episodes, jobs, now) == (shows, episodes),
    decreases jobs.len(),
{
    if jobs.len() > 0 {
        let rest = jobs.drop_last();
        let last = jobs.last();
        assert forall|j: int| 0 <= j < rest.len() implies (job_feed(
            #[trigger] rest[j],
        ) matches Some(feed) ==> feed_settled(shows, episodes, feed.0, feed.1, now)) by {
            assert(rest[j] == jobs[j]);
        }
        lemma_settled_batch_writes_nothing(shows, episodes, rest, now);
        assert(last == jobs[jobs.len() - 1]);
        lemma_state_after_is_indexed(shows, episodes, last, now);
        match job_feed(last) {
            Some(feed) => {
                lemma_settled_feed_writes_nothing(shows, episodes, feed.0, feed.1, now);
            },
            None => {},
        }
    }
}

/// The number of items that the jobs of a batch hand to the indexer.
pub open spec fn total_items(jobs: Seq<Job>) -> nat
    decreases jobs.len(),
{
    if jobs.len() == 0 {
        0
    } else {
        total_items(jobs.drop_last()) + (match job_feed(jobs.last()) {
            Some(feed) => feed.1.len(),
            None => 0,
        })
    }
}

/// A batch that can be indexed without a refusal and without two of its
/// records meeting in one row: the shows have distinct ids, the tables have
/// ids left for every show and every item of the batch, no two items of a
/// feed that name a media file share a title, and no two feeds share the
/// title of their show.
pub open spec fn clean_batch(
    shows: Seq<PodcastView>,
    episodes: Seq<EpisodeView>,
    jobs: Seq<Job>,
) -> bool {
    &&& unique_show_ids(shows)
    &&& show_max_id(shows) + jobs.len() <= i32::MAX
    &&& max_id(episodes) + total_items(jobs) <= i32::MAX
    &&& forall|j: int|
        0 <= j < jobs.len() ==> (job_feed(#[trigger] jobs[j]) matches Some(feed)
            ==> distinct_titles(feed.1))
    &&& forall|i: int, j: int|
        0 <= i < j < jobs.len() ==> (job_feed(#[trigger] jobs[i]) matches Some(a) ==> (job_feed(
            #[trigger] jobs[j],
        ) matches Some(b) ==> a.0.title != b.0.title))
}

/// After a clean batch has been indexed the tables hold every one of its
/// feeds as it is; the shows still have distinct ids, and no more ids are
/// taken than the batch has shows and items.
pub proof fn lemma_batch_settles(
    shows: Seq<PodcastView>,
    episodes: Seq<EpisodeView>,
    jobs: Seq<Job>,
    now: i64,
)
    requires
        clean_batch(shows, episodes, jobs),
    ensures
        ({
            let after = batch_state(shows, episodes, jobs, now);
            &&& all_settled(after.0, after.1, jobs, now)
            &&& unique_show_ids(after.0)
            &&& show_max_id(after.0) <= show_max_id(shows) + jobs.len()
            &&& max_id(after.1) <= max_id(episodes) + total_items(jobs)
        }),
    decreases jobs.len(),
{
    if jobs.len() > 0 {
        let rest = jobs.drop_last();
        let last = jobs.last();
        assert(last == jobs[jobs.len() - 1]);
        assert(clean_batch(shows, episodes, rest)) by {
            assert forall|j: int| 0 <= j < rest.len() implies (job_feed(
                #[trigger] rest[j],
            ) matches Some(feed) ==> distinct_titles(feed.1)) by {
                assert(rest[j] == jobs[j]);
            }
            assert forall|i: int, j: int| 0 <= i < j < rest.len() implies (job_feed(
                #[trigger] rest[i],
            ) matches Some(a) ==> (job_feed(#[trigger] rest[j]) matches Some(b) ==> a.0.title
                != b.0.title)) by {
                assert(rest[i] == jobs[i] && rest[j] == jobs[j]);
            }
        }
        lemma_batch_settles(shows, episodes, rest, now);
        let before = batch_state(shows, episodes, rest, now);
        let after = batch_state(shows, episodes, jobs, now);
        lemma_state_after_is_indexed(before.0, before.1, last, now);
        match job_feed(last) {
            None => {
                assert forall|j: int| 0 <= j < jobs.len() implies (job_feed(
                    #[trigger] jobs[j],
                ) matches Some(feed) ==> feed_settled(after.0, after.1, feed.0, feed.1, now)) by {
                    if j < rest.len() {
                        assert(rest[j] == jobs[j]);
                    }
                }
            },
            Some(feed) => {
                let pd = feed.0;
                let items = feed.1;
                lemma_show_applied_frame(before.0, pd);
                lemma_show_ids_bounded(before.0);
                lemma_show_lookup(before.0, pd.title);
                let id = show_id(before.0, pd).unwrap();
                let records = feed_episodes(items, id, now);
                lemma_feed_facts(items, id, now);
                lemma_reconciled_max_id(before.1, records);
                lemma_reconciled_settles(before.1, records);
                let k = show_lookup(after.0, pd.title).unwrap();
                assert forall|j: int| 0 <= j < jobs.len() implies (job_feed(
                    #[trigger] jobs[j],
                ) matches Some(other) ==> feed_settled(after.0, after.1, other.0, other.1, now)) by {
                    if j < rest.len() {
                        assert(rest[j] == jobs[j]);
                        if job_feed(jobs[j]) is Some {
                            let other = job_feed(jobs[j]).unwrap();
                            assert(other.0.title != pd.title);
                            lemma_show_lookup(before.0, other.0.title);
                            let i = show_lookup(before.0, other.0.title).unwrap();
                            lemma_show_lookup_stays(before.0, pd, other.0.title);
                            assert(after.0[i] == before.0[i]);
                            assert(before.0[i].id != id) by {
                                match show_lookup(before.0, pd.title) {
                                    Some(m) => {
                                        assert(before.0[m].title == pd.title);
                                        if m < i {
                                            assert(before.0[m].id != before.0[i].id);
                                        } else {
                                            assert(before.0[i].id != before.0[m].id);
                                        }
                                    },
                                    None => {
                                        assert(before.0[i].id <= show_max_id(before.0));
                                    },
                                }
                            }
                            let theirs = feed_episodes(other.1, before.0[i].id, now);
                            lemma_feed_facts(other.1, before.0[i].id, now);
                            assert forall|m: int| 0 <= m < theirs.len() implies decide(
                                after.1,
                                (#[trigger] theirs[m]).minimal(),
                            ) is Keep by {
                                assert forall|n: int| 0 <= n < records.len() implies (
                                #[trigger] records[n]).title != theirs[m].minimal().title
                                    || records[n].podcast_id
                                    != theirs[m].minimal().podcast_id by {}
                                lemma_reconciled_keeps_others(
                                    before.1,
                                    records,
                                    theirs[m].minimal(),
                                );
                            }
                        }
                    } else {
                        assert(jobs[j] == last);
                        assert(after.0[k].id == id);
                    }
                }
            },
        }
    }
}

/// Indexing is idempotent over a whole batch: when a clean batch has been
/// run, a second run on the same documents leaves every show and every
/// episode as it is, at whatever time it happens.
pub proof fn lemma_second_batch_changes_nothing(
    shows: Seq<PodcastView>,
    episodes: Seq<EpisodeView>,
    jobs: Seq<Job>,
    first: i64,
    second: i64,
)
    requires
        clean_batch(shows, episodes, jobs),
    ensures
        ({
            let once = batch_state(shows, episodes, jobs, first);
            batch_state(once.0, once.1, jobs, second) == once
        }),
{
    let once = batch_state(shows, episodes, jobs, first);
    lemma_batch_settles(shows, episodes, jobs, first);
    assert forall|j: int| 0 <= j < jobs.len() implies (job_feed(#[trigger] jobs[j]) matches Some(
        feed,
    ) ==> feed_settled(once.0, once.1, feed.0, feed.1, second)) by {
        if job_feed(jobs[j]) is Some {
            let feed = job_feed(jobs[j]).unwrap();
            lemma_settled_at_any_time(once.0, once.1, feed.0, feed.1, first, second);
        }
    }
    lemma_settled_batch_writes_nothing(once.0, once.1, jobs, second);
}

} // verus!
