//! Reconciling parsed episodes with the stored rows.
//!
//! An episode is found again by its title within its show. A parsed episode
//! that matches no row is inserted; one that matches a row with other
//! compared fields overwrites it; one that matches a row with the same
//! compared fields writes nothing.

use crate::errors::DatabaseError;
use crate::models::{Episode, EpisodeView};
use crate::parser::{
    EpisodeMinimal, MinimalView, NewEpisode, NewEpisodeView, StoredMinimalView,
};
use crate::text::{opt_as_str, opt_str_eq, opt_str_text};
use vstd::prelude::*;

verus! {

/// What reconciliation decided for one parsed record.
pub enum IndexState<T> {
    /// No row matches: insert the record.
    Index(T),
    /// A row matches but differs: overwrite the row with this id.
    Update((T, i32)),
    /// A row matches and agrees: write nothing.
    NotChanged,
}

/// The compared fields of a stored row.
pub open spec fn row_minimal(row: EpisodeView) -> MinimalView {
    MinimalView {
        title: row.title,
        uri: row.uri,
        published_date: row.published_date,
        guid: row.guid,
        length: row.length,
        podcast_id: row.podcast_id,
    }
}

/// Whether a row is the one found by this title within this show.
pub open spec fn has_key(row: EpisodeView, title: Option<Seq<char>>, podcast_id: int) -> bool {
    row.title == title && row.podcast_id == podcast_id
}

/// The index of the first row at or after `from` with the given key.
pub open spec fn lookup_from(
    rows: Seq<EpisodeView>,
    title: Option<Seq<char>>,
    podcast_id: int,
    from: int,
) -> Option<int>
    decreases rows.len() - from,
{
    if from < 0 || from >= rows.len() {
        None
    } else if has_key(rows[from], title, podcast_id) {
        Some(from)
    } else {
        lookup_from(rows, title, podcast_id, from + 1)
    }
}

/// The index of the first row with the given key.
pub open spec fn lookup(rows: Seq<EpisodeView>, title: Option<Seq<char>>, podcast_id: int) -> Option<
    int,
> {
    lookup_from(rows, title, podcast_id, 0)
}

/// The largest row id in use, or 0 for an empty table.
pub open spec fn max_id(rows: Seq<EpisodeView>) -> int
    decreases rows.len(),
{
    if rows.len() == 0 {
        0
    } else if rows.last().id > max_id(rows.drop_last()) {
        rows.last().id
    } else {
        max_id(rows.drop_last())
    }
}

/// The row that an insert of `e` creates under the id `id`.
pub open spec fn inserted_row(e: NewEpisodeView, id: int) -> EpisodeView {
    EpisodeView {
        id,
        title: e.title,
        uri: e.uri,
        local_uri: None,
        description: e.description,
        published_date: e.published_date,
        epoch: e.epoch,
        length: e.length,
        guid: e.guid,
        played: None,
        favorite: false,
        archive: false,
        podcast_id: e.podcast_id,
    }
}

/// The row after an update with `e`: what the feed says is overwritten, what
/// the user did with the episode stays.
pub open spec fn updated_row(row: EpisodeView, e: NewEpisodeView) -> EpisodeView {
    EpisodeView {
        title: e.title,
        uri: e.uri,
        description: e.description,
        published_date: e.published_date,
        epoch: e.epoch,
        length: e.length,
        guid: e.guid,
        ..row
    }
}

/// What reconciliation decides for a record, as a plain value.
pub enum Decision {
    Insert,
    Overwrite { index: int },
    Keep,
}

/// The decision for a parsed record against the stored rows.
pub open spec fn decide(rows: Seq<EpisodeView>, m: MinimalView) -> Decision {
    match lookup(rows, m.title, m.podcast_id) {
        None => Decision::Insert,
        Some(i) => if row_minimal(rows[i]) == m {
            Decision::Keep
        } else {
            Decision::Overwrite { index: i }
        },
    }
}

/// Whether the table has a row id left for one more insert.
pub open spec fn has_room(rows: Seq<EpisodeView>) -> bool {
    max_id(rows) < i32::MAX
}

/// What became of one record.
#[derive(Clone, Copy, PartialEq, Eq, Structural, Debug)]
pub enum Outcome {
    /// A new row was written.
    Inserted,
    /// A row was overwritten.
    Updated,
    /// Nothing was written, because nothing differs.
    Unchanged,
    /// The insert was refused: the table has run out of row ids.
    Refused,
}

/// What becomes of a parsed record against the stored rows.
pub open spec fn outcome(rows: Seq<EpisodeView>, e: NewEpisodeView) -> Outcome {
    match decide(rows, e.minimal()) {
        Decision::Insert => if has_room(rows) {
            Outcome::Inserted
        } else {
            Outcome::Refused
        },
        Decision::Overwrite { index } => Outcome::Updated,
        Decision::Keep => Outcome::Unchanged,
    }
}

/// The rows after the decision for `e` has been carried out. A new row gets
/// the id after the largest one in use.
pub open spec fn applied(rows: Seq<EpisodeView>, e: NewEpisodeView) -> Seq<EpisodeView> {
    match decide(rows, e.minimal()) {
        Decision::Insert => if has_room(rows) {
            rows.push(inserted_row(e, max_id(rows) + 1))
        } else {
            rows
        },
        Decision::Overwrite { index } => rows.update(index, updated_row(rows[index], e)),
        Decision::Keep => rows,
    }
}

/// The rows after a whole feed has been reconciled, item by item.
pub open spec fn reconciled(rows: Seq<EpisodeView>, feed: Seq<NewEpisodeView>) -> Seq<EpisodeView>
    decreases feed.len(),
{
    if feed.len() == 0 {
        rows
    } else {
        applied(reconciled(rows, feed.drop_last()), feed.last())
    }
}

/// How many records of a feed meet the outcome `o` when the feed is
/// reconciled item by item.
pub open spec fn tally(rows: Seq<EpisodeView>, feed: Seq<NewEpisodeView>, o: Outcome) -> nat
    decreases feed.len(),
{
    if feed.len() == 0 {
        0
    } else {
        let before = reconciled(rows, feed.drop_last());
        let one: nat = if outcome(before, feed.last()) == o {
            1
        } else {
            0
        };
        tally(rows, feed.drop_last(), o) + one
    }
}

/// How many writes reconciling a whole feed takes.
pub open spec fn writes(rows: Seq<EpisodeView>, feed: Seq<NewEpisodeView>) -> nat {
    tally(rows, feed, Outcome::Inserted) + tally(rows, feed, Outcome::Updated)
}

/// `state` is the decision for the record `e` against `rows`, carrying the
/// record where there is something to write and the id of the row where a
/// row is overwritten.
pub open spec fn entry_matches(
    state: IndexState<NewEpisode>,
    rows: Seq<EpisodeView>,
    e: NewEpisodeView,
) -> bool {
    match decide(rows, e.minimal()) {
        Decision::Insert => state matches IndexState::Index(n) && n@ == e,
        Decision::Overwrite { index } => state matches IndexState::Update((n, id)) && n@ == e
            && id == rows[index].id,
        Decision::Keep => state is NotChanged,
    }
}

/// The stored episodes, in the order in which they were inserted.
pub struct EpisodeTable {
    rows: Vec<Episode>,
}

impl View for EpisodeTable {
    type V = Seq<EpisodeView>;

    closed spec fn view(&self) -> Seq<EpisodeView> {
        self.rows@.map_values(|e: Episode| e@)
    }
}

proof fn lemma_lookup_from_bounds(
    rows: Seq<EpisodeView>,
    title: Option<Seq<char>>,
    podcast_id: int,
    from: int,
)
    requires
        0 <= from,
    ensures
        match lookup_from(rows, title, podcast_id, from) {
            Some(i) => from <= i < rows.len() && has_key(rows[i], title, podcast_id) && forall|
                j: int,
            |
                from <= j < i ==> !has_key(#[trigger] rows[j], title, podcast_id),
            None => forall|j: int|
                from <= j < rows.len() ==> !has_key(#[trigger] rows[j], title, podcast_id),
        },
    decreases rows.len() - from,
{
    if from < rows.len() && !has_key(rows[from], title, podcast_id) {
        lemma_lookup_from_bounds(rows, title, podcast_id, from + 1);
    }
}

/// What `lookup` finds: the first row with the key, and no row where none has it.
pub proof fn lemma_lookup(rows: Seq<EpisodeView>, title: Option<Seq<char>>, podcast_id: int)
    ensures
        match lookup(rows, title, podcast_id) {
            Some(i) => 0 <= i < rows.len() && has_key(rows[i], title, podcast_id) && forall|
                j: int,
            |
                0 <= j < i ==> !has_key(#[trigger] rows[j], title, podcast_id),
            None => forall|j: int|
                0 <= j < rows.len() ==> !has_key(#[trigger] rows[j], title, podcast_id),
        },
{
    lemma_lookup_from_bounds(rows, title, podcast_id, 0);
}

/// A first row with the key, found by any means, is what `lookup` finds.
pub proof fn lemma_lookup_is(
    rows: Seq<EpisodeView>,
    title: Option<Seq<char>>,
    podcast_id: int,
    i: int,
)
    requires
        0 <= i < rows.len(),
        has_key(rows[i], title, podcast_id),
        forall|j: int| 0 <= j < i ==> !has_key(#[trigger] rows[j], title, podcast_id),
    ensures
        lookup(rows, title, podcast_id) == Some(i),
{
    lemma_lookup(rows, title, podcast_id);
}

impl EpisodeTable {
    /// An empty table.
    pub fn new() -> (t: EpisodeTable)
        ensures
            t@.len() == 0,
    {
        let t = EpisodeTable { rows: Vec::new() };
        assert(t@ =~= Seq::empty());
        t
    }

    /// A table holding the given rows, in their order.
    pub fn from_rows(rows: Vec<Episode>) -> (t: EpisodeTable)
        ensures
            t@ == rows@.map_values(|e: Episode| e@),
    {
        EpisodeTable { rows }
    }

    /// The number of rows.
    pub fn len(&self) -> (n: usize)
        ensures
            n == self@.len(),
    {
        self.rows.len()
    }

    /// The row at position `i`.
    pub fn row(&self, i: usize) -> (e: &Episode)
        requires
            i < self@.len(),
        ensures
            e@ == self@[i as int],
    {
        &self.rows[i]
    }

    /// The position of the first row with this title in this show.
    pub fn position(&self, title: Option<&str>, podcast_id: i32) -> (r: Option<usize>)
        ensures
            match r {
                Some(i) => i < self@.len() && lookup(
                    self@,
                    opt_str_text(title),
                    podcast_id as int,
                ) == Some(i as int),
                None => lookup(self@, opt_str_text(title), podcast_id as int) is None,
            },
    {
        let mut i: usize = 0;
        while i < self.rows.len()
            invariant
                i <= self.rows.len(),
                forall|j: int|
                    0 <= j < i ==> !has_key(
                        #[trigger] self@[j],
                        opt_str_text(title),
                        podcast_id as int,
                    ),
            decreases self.rows.len() - i,
        {
            let row = &self.rows[i];
            assert(row@ == self@[i as int]);
            if row.podcast_id() == podcast_id && opt_str_eq(row.title(), title) {
                proof {
                    lemma_lookup_is(self@, opt_str_text(title), podcast_id as int, i as int);
                }
                return Some(i);
            }
            i = i + 1;
        }
        proof {
            lemma_lookup(self@, opt_str_text(title), podcast_id as int);
        }
        None
    }

    /// Whether an episode with this title is stored for this show.
    pub fn episode_exists(&self, title: Option<&str>, podcast_id: i32) -> (found: bool)
        ensures
            found == lookup(self@, opt_str_text(title), podcast_id as int).is_some(),
    {
        self.position(title, podcast_id).is_some()
    }

    /// The compared fields of the episode with this title in this show.
    pub fn get_episode_minimal(&self, title: Option<&str>, podcast_id: i32) -> (r: Option<
        EpisodeMinimal,
    >)
        ensures
            match lookup(self@, opt_str_text(title), podcast_id as int) {
                Some(i) => r matches Some(m) && m@ == (StoredMinimalView {
                    rowid: self@[i].id,
                    fields: row_minimal(self@[i]),
                }),
                None => r is None,
            },
    {
        match self.position(title, podcast_id) {
            None => None,
            Some(i) => {
                let row = &self.rows[i];
                assert(row@ == self@[i as int]);
                Some(
                    EpisodeMinimal {
                        rowid: row.id(),
                        title: crate::text::opt_owned(row.title()),
                        uri: row.uri().to_owned(),
                        published_date: crate::text::opt_owned(row.published_date()),
                        guid: crate::text::opt_owned(row.guid()),
                        length: row.length(),
                        podcast_id: row.podcast_id(),
                    },
                )
            },
        }
    }

    /// The largest row id in use, or 0 for an empty table.
    pub fn largest_id(&self) -> (id: i32)
        ensures
            id == max_id(self@),
    {
        let mut best: i32 = 0;
        let mut i: usize = 0;
        while i < self.rows.len()
            invariant
                i <= self.rows.len(),
                best == max_id(self@.subrange(0, i as int)),
            decreases self.rows.len() - i,
        {
            let id = self.rows[i].id();
            proof {
                let next = self@.subrange(0, i + 1);
                assert(next.drop_last() == self@.subrange(0, i as int));
                assert(next.last() == self@[i as int]);
            }
            if id > best {
                best = id;
            }
            i = i + 1;
        }
        assert(self@.subrange(0, self@.len() as int) == self@);
        best
    }

    /// Reconciles one parsed episode with the table and carries the decision
    /// out. The state says what was decided; with it comes what became of
    /// the record. An insert is refused, and the table left alone, only when
    /// no row id is left.
    pub fn index_episode(&mut self, e: NewEpisode) -> (r: (IndexState<NewEpisode>, Outcome))
        ensures
            final(self)@ == applied(old(self)@, e@),
            r.1 == outcome(old(self)@, e@),
            entry_matches(r.0, old(self)@, e@),
    {
        proof {
            lemma_lookup(self@, e@.title, e@.podcast_id);
        }
        match self.position(opt_as_str(&e.title), e.podcast_id) {
            None => {
                let largest = self.largest_id();
                if largest == i32::MAX {
                    (IndexState::Index(e), Outcome::Refused)
                } else {
                    let row = Episode::new(
                        largest + 1,
                        opt_as_str(&e.title),
                        e.uri.as_str(),
                        opt_as_str(&e.description),
                        opt_as_str(&e.published_date),
                        e.epoch,
                        e.length,
                        opt_as_str(&e.guid),
                        e.podcast_id,
                    );
                    self.rows.push(row);
                    assert(self@ =~= old(self)@.push(inserted_row(e@, max_id(old(self)@) + 1)));
                    (IndexState::Index(e), Outcome::Inserted)
                }
            },
            Some(i) => {
                let same = {
                    let row = &self.rows[i];
                    assert(row@ == self@[i as int]);
                    opt_str_eq(row.uri_opt(), Some(e.uri.as_str())) && opt_str_eq(
                        row.published_date(),
                        opt_as_str(&e.published_date),
                    ) && opt_str_eq(row.guid(), opt_as_str(&e.guid)) && row.length() == e.length
                };
                assert(same == (row_minimal(self@[i as int]) == e@.minimal()));
                if same {
                    (IndexState::NotChanged, Outcome::Unchanged)
                } else {
                    let id = self.rows[i].id();
                    let mut row = self.rows[i].clone();
                    row.set_title(opt_as_str(&e.title));
                    row.set_uri(e.uri.as_str());
                    row.set_description(opt_as_str(&e.description));
                    row.set_published_date(opt_as_str(&e.published_date));
                    row.set_epoch(e.epoch);
                    row.set_length(e.length);
                    row.set_guid(opt_as_str(&e.guid));
                    self.rows.set(i, row);
                    assert(self@ =~= old(self)@.update(
                        i as int,
                        updated_row(old(self)@[i as int], e@),
                    ));
                    (IndexState::Update((e, id)), Outcome::Updated)
                }
            },
        }
    }
}

/// The index of the first row at or after `from` with the given id.
pub open spec fn row_with_id_from(rows: Seq<EpisodeView>, id: int, from: int) -> Option<int>
    decreases rows.len() - from,
{
    if from < 0 || from >= rows.len() {
        None
    } else if rows[from].id == id {
        Some(from)
    } else {
        row_with_id_from(rows, id, from + 1)
    }
}

/// The index of the first row with the given id.
pub open spec fn row_with_id(rows: Seq<EpisodeView>, id: int) -> Option<int> {
    row_with_id_from(rows, id, 0)
}

proof fn lemma_row_with_id_from(rows: Seq<EpisodeView>, id: int, from: int)
    requires
        0 <= from,
    ensures
        match row_with_id_from(rows, id, from) {
            Some(i) => from <= i < rows.len() && rows[i].id == id && forall|j: int|
                from <= j < i ==> (#[trigger] rows[j]).id != id,
            None => forall|j: int| from <= j < rows.len() ==> (#[trigger] rows[j]).id != id,
        },
    decreases rows.len() - from,
{
    if from < rows.len() && rows[from].id != id {
        lemma_row_with_id_from(rows, id, from + 1);
    }
}

impl Episode {
    /// Writes the episode back to its row, found by its id. Fails, with the
    /// table left alone, where no row has the id.
    pub fn save(&self, table: &mut EpisodeTable) -> (r: Result<(), DatabaseError>)
        ensures
            match row_with_id(old(table)@, self@.id) {
                Some(i) => r is Ok && final(table)@ == old(table)@.update(i, self@),
                None => r is Err && final(table)@ == old(table)@,
            },
    {
        proof {
            lemma_row_with_id_from(table@, self@.id, 0);
        }
        let mut i: usize = 0;
        while i < table.rows.len()
            invariant
                i <= table.rows.len(),
                table@ == old(table)@,
                forall|j: int| 0 <= j < i ==> (#[trigger] table@[j]).id != self@.id,
            decreases table.rows.len() - i,
        {
            assert(table.rows[i as int]@ == table@[i as int]);
            if table.rows[i].id() == self.id() {
                proof {
                    lemma_row_with_id_from(table@, self@.id, 0);
                }
                table.rows.set(i, self.clone());
                assert(table@ =~= old(table)@.update(i as int, self@));
                return Ok(());
            }
            i = i + 1;
        }
        Err(DatabaseError::DieselResultError("NotFound".to_owned()))
    }
}

/// The rows without the episodes of a show, the others in their order.
pub open spec fn without_show(rows: Seq<EpisodeView>, show_id: int) -> Seq<EpisodeView>
    decreases rows.len(),
{
    if rows.len() == 0 {
        rows
    } else if rows.last().podcast_id == show_id {
        without_show(rows.drop_last(), show_id)
    } else {
        without_show(rows.drop_last(), show_id).push(rows.last())
    }
}

/// Once the episodes of a show are removed none of them is left, and every
/// row that is left was there before.
pub proof fn lemma_without_show(rows: Seq<EpisodeView>, show_id: int)
    ensures
        forall|k: int|
            0 <= k < without_show(rows, show_id).len() ==> (#[trigger] without_show(
                rows,
                show_id,
            )[k]).podcast_id != show_id && rows.contains(without_show(rows, show_id)[k]),
        forall|k: int|
            0 <= k < rows.len() && rows[k].podcast_id != show_id ==> without_show(
                rows,
                show_id,
            ).contains(#[trigger] rows[k]),
    decreases rows.len(),
{
    if rows.len() > 0 {
        let shorter = rows.drop_last();
        let kept = without_show(shorter, show_id);
        lemma_without_show(shorter, show_id);
        let all = without_show(rows, show_id);
        assert forall|k: int| 0 <= k < all.len() implies (#[trigger] all[k]).podcast_id != show_id
            && rows.contains(all[k]) by {
            if k < kept.len() {
                assert(all[k] == kept[k]);
                let j = choose|j: int| 0 <= j < shorter.len() && shorter[j] == kept[k];
                assert(rows[j] == all[k]);
            } else {
                assert(all[k] == rows.last());
                assert(rows[rows.len() - 1] == all[k]);
            }
        }
        assert forall|k: int|
            0 <= k < rows.len() && rows[k].podcast_id != show_id implies all.contains(
            #[trigger] rows[k],
        ) by {
            if k < shorter.len() {
                assert(shorter[k] == rows[k]);
                let j = choose|j: int| 0 <= j < kept.len() && kept[j] == shorter[k];
                assert(all[j] == rows[k]);
            } else {
                assert(all[all.len() - 1] == rows[k]);
            }
        }
    }
}

impl EpisodeTable {
    /// Removes the episodes of a show. The other rows stay, in their order.
    pub fn delete_show_episodes(&mut self, show_id: i32)
        ensures
            final(self)@ == without_show(old(self)@, show_id as int),
    {
        let mut kept: Vec<Episode> = Vec::new();
        let mut i: usize = 0;
        while i < self.rows.len()
            invariant
                i <= self.rows.len(),
                self@ == old(self)@,
                kept@.map_values(|e: Episode| e@) == without_show(
                    self@.subrange(0, i as int),
                    show_id as int,
                ),
            decreases self.rows.len() - i,
        {
            proof {
                let next = self@.subrange(0, i + 1);
                assert(next.drop_last() == self@.subrange(0, i as int));
                assert(next.last() == self@[i as int]);
                assert(self.rows[i as int]@ == self@[i as int]);
            }
            let ghost before = kept@.map_values(|e: Episode| e@);
            if self.rows[i].podcast_id() != show_id {
                kept.push(self.rows[i].clone());
                assert(kept@.map_values(|e: Episode| e@) =~= before.push(self@[i as int]));
            }
            i = i + 1;
        }
        assert(self@.subrange(0, self.rows.len() as int) == self@);
        self.rows = kept;
    }
}

/// Reconciliation never takes more than one new row id.
pub proof fn lemma_applied_max_id(rows: Seq<EpisodeView>, e: NewEpisodeView)
    ensures
        max_id(rows) <= max_id(applied(rows, e)) <= max_id(rows) + 1,
{
    lemma_lookup(rows, e.title, e.podcast_id);
    match decide(rows, e.minimal()) {
        Decision::Insert => {
            if has_room(rows) {
                let next = rows.push(inserted_row(e, max_id(rows) + 1));
                assert(next.drop_last() == rows);
            }
        },
        Decision::Overwrite { index } => {
            lemma_max_id_by_ids(rows, rows.update(index, updated_row(rows[index], e)));
        },
        Decision::Keep => {},
    }
}

proof fn lemma_max_id_by_ids(a: Seq<EpisodeView>, b: Seq<EpisodeView>)
    requires
        a.len() == b.len(),
        forall|i: int| 0 <= i < a.len() ==> a[i].id == b[i].id,
    ensures
        max_id(a) == max_id(b),
    decreases a.len(),
{
    if a.len() > 0 {
        lemma_max_id_by_ids(a.drop_last(), b.drop_last());
    }
}

/// After reconciling a feed the largest id has grown by no more than the
/// number of its records.
pub proof fn lemma_reconciled_max_id(rows: Seq<EpisodeView>, feed: Seq<NewEpisodeView>)
    ensures
        max_id(rows) <= max_id(reconciled(rows, feed)) <= max_id(rows) + feed.len(),
    decreases feed.len(),
{
    if feed.len() > 0 {
        lemma_reconciled_max_id(rows, feed.drop_last());
        lemma_applied_max_id(reconciled(rows, feed.drop_last()), feed.last());
    }
}

/// Once a record has been reconciled and not refused, the row found by its
/// key agrees with it on every compared field.
pub proof fn lemma_applied_matches(rows: Seq<EpisodeView>, e: NewEpisodeView)
    requires
        outcome(rows, e) != Outcome::Refused,
    ensures
        decide(applied(rows, e), e.minimal()) is Keep,
{
    lemma_lookup(rows, e.title, e.podcast_id);
    let after = applied(rows, e);
    match decide(rows, e.minimal()) {
        Decision::Insert => {
            lemma_lookup_is(after, e.title, e.podcast_id, rows.len() as int);
        },
        Decision::Overwrite { index } => {
            lemma_lookup_is(after, e.title, e.podcast_id, index);
        },
        Decision::Keep => {},
    }
}

/// Reconciling a record leaves the decision for every record of another key
/// as it was.
pub proof fn lemma_applied_keeps_others(
    rows: Seq<EpisodeView>,
    e: NewEpisodeView,
    other: MinimalView,
)
    requires
        other.title != e.title || other.podcast_id != e.podcast_id,
    ensures
        decide(applied(rows, e), other) == decide(rows, other),
{
    let after = applied(rows, e);
    lemma_lookup(rows, e.title, e.podcast_id);
    lemma_lookup(rows, other.title, other.podcast_id);
    lemma_lookup(after, other.title, other.podcast_id);
    assert forall|j: int| 0 <= j < rows.len() implies (has_key(
        #[trigger] after[j],
        other.title,
        other.podcast_id,
    ) == has_key(rows[j], other.title, other.podcast_id) && (has_key(
        rows[j],
        other.title,
        other.podcast_id,
    ) ==> after[j] == rows[j])) by {}
    match lookup(rows, other.title, other.podcast_id) {
        Some(i) => {
            lemma_lookup_is(after, other.title, other.podcast_id, i);
        },
        None => {
            if lookup(after, other.title, other.podcast_id) is Some {
                let i = lookup(after, other.title, other.podcast_id).unwrap();
                if i < rows.len() {
                    assert(has_key(rows[i], other.title, other.podcast_id));
                }
            }
        },
    }
}

/// No two records of the feed have the same title within the same show.
pub open spec fn distinct_keys(feed: Seq<NewEpisodeView>) -> bool {
    forall|i: int, j: int|
        0 <= i < j < feed.len() ==> (#[trigger] feed[i]).title != (#[trigger] feed[j]).title
            || feed[i].podcast_id != feed[j].podcast_id
}

/// Two runs saw the same feed: record by record, the compared fields agree.
pub open spec fn same_feed(first: Seq<NewEpisodeView>, second: Seq<NewEpisodeView>) -> bool {
    first.len() == second.len() && forall|j: int|
        0 <= j < first.len() ==> (#[trigger] first[j]).minimal() == second[j].minimal()
}

/// Every record of the feed finds a row that agrees with it.
pub open spec fn settled(rows: Seq<EpisodeView>, feed: Seq<NewEpisodeView>) -> bool {
    forall|j: int| 0 <= j < feed.len() ==> decide(rows, (#[trigger] feed[j]).minimal()) is Keep
}

/// Reconciling a feed whose records all find an agreeing row writes nothing.
pub proof fn lemma_settled_writes_nothing(rows: Seq<EpisodeView>, feed: Seq<NewEpisodeView>)
    requires
        settled(rows, feed),
    ensures
        reconciled(rows, feed) == rows,
        tally(rows, feed, Outcome::Inserted) == 0,
        tally(rows, feed, Outcome::Updated) == 0,
        tally(rows, feed, Outcome::Refused) == 0,
        tally(rows, feed, Outcome::Unchanged) == feed.len(),
    decreases feed.len(),
{
    if feed.len() > 0 {
        let rest = feed.drop_last();
        assert forall|j: int| 0 <= j < rest.len() implies decide(
            rows,
            (#[trigger] rest[j]).minimal(),
        ) is Keep by {
            assert(rest[j] == feed[j]);
        }
        lemma_settled_writes_nothing(rows, rest);
        assert(decide(rows, feed.last().minimal()) is Keep);
    }
}

/// After a feed with distinct keys has been reconciled with room for its
/// inserts, every one of its records finds a row that agrees with it.
pub proof fn lemma_reconciled_settles(rows: Seq<EpisodeView>, feed: Seq<NewEpisodeView>)
    requires
        distinct_keys(feed),
        max_id(rows) + feed.len() <= i32::MAX,
    ensures
        settled(reconciled(rows, feed), feed),
    decreases feed.len(),
{
    if feed.len() > 0 {
        let rest = feed.drop_last();
        let last = feed.last();
        let before = reconciled(rows, rest);
        assert(distinct_keys(rest)) by {
            assert forall|i: int, j: int| 0 <= i < j < rest.len() implies (#[trigger] rest[i]).title
                != (#[trigger] rest[j]).title || rest[i].podcast_id != rest[j].podcast_id by {
                assert(rest[i] == feed[i] && rest[j] == feed[j]);
            }
        }
        lemma_reconciled_settles(rows, rest);
        lemma_reconciled_max_id(rows, rest);
        lemma_applied_matches(before, last);
        assert forall|j: int| 0 <= j < feed.len() implies decide(
            reconciled(rows, feed),
            (#[trigger] feed[j]).minimal(),
        ) is Keep by {
            if j < rest.len() {
                assert(rest[j] == feed[j]);
                assert(feed[j].title != last.title || feed[j].podcast_id != last.podcast_id);
                lemma_applied_keeps_others(before, last, feed[j].minimal());
            }
        }
    }
}

/// Indexing is idempotent: when a feed whose records have distinct titles
/// has been reconciled, reconciling the same feed again writes nothing and
/// leaves every row as it is. The second run may date undated items
/// differently; that is not compared.
pub proof fn lemma_reindex_writes_nothing(
    rows: Seq<EpisodeView>,
    first: Seq<NewEpisodeView>,
    second: Seq<NewEpisodeView>,
)
    requires
        distinct_keys(first),
        same_feed(first, second),
        max_id(rows) + first.len() <= i32::MAX,
    ensures
        reconciled(reconciled(rows, first), second) == reconciled(rows, first),
        writes(reconciled(rows, first), second) == 0,
        tally(reconciled(rows, first), second, Outcome::Unchanged) == second.len(),
{
    let stored = reconciled(rows, first);
    lemma_reconciled_settles(rows, first);
    assert forall|j: int| 0 <= j < second.len() implies decide(
        stored,
        (#[trigger] second[j]).minimal(),
    ) is Keep by {
        assert(first[j].minimal() == second[j].minimal());
    }
    lemma_settled_writes_nothing(stored, second);
}

/// No two rows have the same title within the same show.
pub open spec fn unique_keys(rows: Seq<EpisodeView>) -> bool {
    forall|i: int, j: int|
        0 <= i < j < rows.len() ==> (#[trigger] rows[i]).title != (#[trigger] rows[j]).title
            || rows[i].podcast_id != rows[j].podcast_id
}

/// An episode is stored at most once: reconciling a record with a table in
/// which no key occurs twice leaves a table in which no key occurs twice.
pub proof fn lemma_applied_keeps_keys_unique(rows: Seq<EpisodeView>, e: NewEpisodeView)
    requires
        unique_keys(rows),
    ensures
        unique_keys(applied(rows, e)),
{
    lemma_lookup(rows, e.title, e.podcast_id);
    let after = applied(rows, e);
    assert forall|i: int, j: int| 0 <= i < j < after.len() implies (#[trigger] after[i]).title != (
    #[trigger] after[j]).title || after[i].podcast_id != after[j].podcast_id by {
        match decide(rows, e.minimal()) {
            Decision::Insert => {
                if has_room(rows) && j == rows.len() {
                    assert(!has_key(rows[i], e.title, e.podcast_id));
                }
            },
            Decision::Overwrite { index } => {
                assert(has_key(rows[index], e.title, e.podcast_id));
                assert(rows[i].title != rows[j].title || rows[i].podcast_id != rows[j].podcast_id);
            },
            Decision::Keep => {},
        }
    }
}

/// Reconciling a whole feed keeps every key unique.
pub proof fn lemma_reconciled_keeps_keys_unique(rows: Seq<EpisodeView>, feed: Seq<NewEpisodeView>)
    requires
        unique_keys(rows),
    ensures
        unique_keys(reconciled(rows, feed)),
    decreases feed.len(),
{
    if feed.len() > 0 {
        lemma_reconciled_keeps_keys_unique(rows, feed.drop_last());
        lemma_applied_keeps_keys_unique(reconciled(rows, feed.drop_last()), feed.last());
    }
}

/// The title within the show is the key, not the guid: a record whose title
/// is already stored for its show overwrites that row when its guid differs,
/// and never adds a row.
pub proof fn lemma_guid_is_no_key(rows: Seq<EpisodeView>, e: NewEpisodeView, i: int)
    requires
        lookup(rows, e.title, e.podcast_id) == Some(i),
        rows[i].guid != e.guid,
    ensures
        outcome(rows, e) == Outcome::Updated,
        applied(rows, e) == rows.update(i, updated_row(rows[i], e)),
        applied(rows, e).len() == rows.len(),
{
    lemma_lookup(rows, e.title, e.podcast_id);
}

} // verus!
