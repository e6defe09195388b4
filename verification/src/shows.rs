//! Reconciling a parsed show with the stored shows.
//!
//! A show is found again by its title. A stored show takes the link, the
//! description and the image address of every successful parse, without any
//! comparison; what the user set on it stays.

use crate::errors::DatabaseError;
use crate::models::{Podcast, PodcastView};
use crate::parser::{NewPodcast, NewPodcastView};
use crate::text::{opt_as_str, str_eq};
use vstd::prelude::*;

verus! {

/// The index of the first show at or after `from` with the given title.
pub open spec fn show_lookup_from(rows: Seq<PodcastView>, title: Seq<char>, from: int) -> Option<
    int,
>
    decreases rows.len() - from,
{
    if from < 0 || from >= rows.len() {
        None
    } else if rows[from].title == title {
        Some(from)
    } else {
        show_lookup_from(rows, title, from + 1)
    }
}

/// The index of the first show with the given title.
pub open spec fn show_lookup(rows: Seq<PodcastView>, title: Seq<char>) -> Option<int> {
    show_lookup_from(rows, title, 0)
}

/// The largest show id in use, or 0 where there is none.
pub open spec fn show_max_id(rows: Seq<PodcastView>) -> int
    decreases rows.len(),
{
    if rows.len() == 0 {
        0
    } else if rows.last().id > show_max_id(rows.drop_last()) {
        rows.last().id
    } else {
        show_max_id(rows.drop_last())
    }
}

/// The row that an insert of `pd` creates under the id `id`.
pub open spec fn inserted_show(pd: NewPodcastView, id: int) -> PodcastView {
    PodcastView {
        id,
        title: pd.title,
        link: pd.link,
        description: pd.description,
        image_uri: pd.image_uri,
        favorite: false,
        archive: false,
        always_dl: false,
        source_id: pd.source_id,
    }
}

/// A stored show overwritten with what was parsed.
pub open spec fn overwritten_show(row: PodcastView, pd: NewPodcastView) -> PodcastView {
    PodcastView { link: pd.link, description: pd.description, image_uri: pd.image_uri, ..row }
}

/// The id under which the show is stored after it has been reconciled, or
/// `None` where it is new and no id is left.
pub open spec fn show_id(rows: Seq<PodcastView>, pd: NewPodcastView) -> Option<int> {
    match show_lookup(rows, pd.title) {
        Some(i) => Some(rows[i].id),
        None => if show_max_id(rows) < i32::MAX {
            Some(show_max_id(rows) + 1)
        } else {
            None
        },
    }
}

/// What reconciling a show wrote: the id the show is stored under, and
/// whether its row is new.
pub struct ShowWrite {
    pub id: i32,
    pub inserted: bool,
}

/// Whether reconciling `pd` inserts a row.
pub open spec fn show_is_new(rows: Seq<PodcastView>, pd: NewPodcastView) -> bool {
    show_lookup(rows, pd.title) is None
}

/// The shows after `pd` has been reconciled.
pub open spec fn show_applied(rows: Seq<PodcastView>, pd: NewPodcastView) -> Seq<PodcastView> {
    match show_lookup(rows, pd.title) {
        Some(i) => rows.update(i, overwritten_show(rows[i], pd)),
        None => if show_max_id(rows) < i32::MAX {
            rows.push(inserted_show(pd, show_max_id(rows) + 1))
        } else {
            rows
        },
    }
}

proof fn lemma_show_lookup_from(rows: Seq<PodcastView>, title: Seq<char>, from: int)
    requires
        0 <= from,
    ensures
        match show_lookup_from(rows, title, from) {
            Some(i) => from <= i < rows.len() && rows[i].title == title && forall|j: int|
                from <= j < i ==> (#[trigger] rows[j]).title != title,
            None => forall|j: int| from <= j < rows.len() ==> (#[trigger] rows[j]).title != title,
        },
    decreases rows.len() - from,
{
    if from < rows.len() && rows[from].title != title {
        lemma_show_lookup_from(rows, title, from + 1);
    }
}

/// What `show_lookup` finds: the first show with the title, and none where
/// no show has it.
pub proof fn lemma_show_lookup(rows: Seq<PodcastView>, title: Seq<char>)
    ensures
        match show_lookup(rows, title) {
            Some(i) => 0 <= i < rows.len() && rows[i].title == title && forall|j: int|
                0 <= j < i ==> (#[trigger] rows[j]).title != title,
            None => forall|j: int| 0 <= j < rows.len() ==> (#[trigger] rows[j]).title != title,
        },
{
    lemma_show_lookup_from(rows, title, 0);
}

/// No two shows have the same title.
pub open spec fn unique_titles(rows: Seq<PodcastView>) -> bool {
    forall|i: int, j: int|
        0 <= i < j < rows.len() ==> (#[trigger] rows[i]).title != (#[trigger] rows[j]).title
}

/// A show is stored at most once: reconciling a show keeps the titles
/// distinct.
pub proof fn lemma_show_applied_keeps_titles_unique(rows: Seq<PodcastView>, pd: NewPodcastView)
    requires
        unique_titles(rows),
    ensures
        unique_titles(show_applied(rows, pd)),
{
    lemma_show_lookup(rows, pd.title);
}

/// Reconciling the same show again finds it under the same id and leaves
/// every row as it is.
pub proof fn lemma_show_is_settled(rows: Seq<PodcastView>, pd: NewPodcastView)
    requires
        show_id(rows, pd) is Some,
    ensures
        show_id(show_applied(rows, pd), pd) == show_id(rows, pd),
        show_applied(show_applied(rows, pd), pd) == show_applied(rows, pd),
        !show_is_new(show_applied(rows, pd), pd),
{
    lemma_show_lookup(rows, pd.title);
    let after = show_applied(rows, pd);
    lemma_show_lookup(after, pd.title);
    match show_lookup(rows, pd.title) {
        Some(i) => {
            assert(after[i].title == pd.title);
            assert(show_lookup(after, pd.title) == Some(i));
            assert(after.update(i, overwritten_show(after[i], pd)) =~= after);
        },
        None => {
            let last = rows.len() as int;
            assert(after[last].title == pd.title);
            assert(show_lookup(after, pd.title) == Some(last));
            assert(after.update(last, overwritten_show(after[last], pd)) =~= after);
        },
    }
}

/// The stored shows, in the order in which they were inserted.
pub struct ShowTable {
    rows: Vec<Podcast>,
}

impl View for ShowTable {
    type V = Seq<PodcastView>;

    closed spec fn view(&self) -> Seq<PodcastView> {
        self.rows@.map_values(|p: Podcast| p@)
    }
}

impl ShowTable {
    /// An empty table.
    pub fn new() -> (t: ShowTable)
        ensures
            t@.len() == 0,
    {
        let t = ShowTable { rows: Vec::new() };
        assert(t@ =~= Seq::empty());
        t
    }

    /// A table holding the given rows, in their order.
    pub fn from_rows(rows: Vec<Podcast>) -> (t: ShowTable)
        ensures
            t@ == rows@.map_values(|p: Podcast| p@),
    {
        ShowTable { rows }
    }

    /// The number of shows.
    pub fn len(&self) -> (n: usize)
        ensures
            n == self@.len(),
    {
        self.rows.len()
    }

    /// The show at position `i`.
    pub fn row(&self, i: usize) -> (p: &Podcast)
        requires
            i < self@.len(),
        ensures
            p@ == self@[i as int],
    {
        &self.rows[i]
    }

    /// The position of the first show with this title.
    pub fn position(&self, title: &str) -> (r: Option<usize>)
        ensures
            match r {
                Some(i) => i < self@.len() && show_lookup(self@, title@) == Some(i as int),
                None => show_lookup(self@, title@) is None,
            },
    {
        let mut i: usize = 0;
        while i < self.rows.len()
            invariant
                i <= self.rows.len(),
                forall|j: int| 0 <= j < i ==> (#[trigger] self@[j]).title != title@,
            decreases self.rows.len() - i,
        {
            let row = &self.rows[i];
            assert(row@ == self@[i as int]);
            if str_eq(row.title(), title) {
                proof {
                    lemma_show_lookup(self@, title@);
                }
                return Some(i);
            }
            i = i + 1;
        }
        proof {
            lemma_show_lookup(self@, title@);
        }
        None
    }

    /// The largest show id in use, or 0 for an empty table.
    pub fn largest_id(&self) -> (id: i32)
        ensures
            id == show_max_id(self@),
    {
        let mut best: i32 = 0;
        let mut i: usize = 0;
        while i < self.rows.len()
            invariant
                i <= self.rows.len(),
                best == show_max_id(self@.subrange(0, i as int)),
            decreases self.rows.len() - i,
        {
            let id = self.rows[i].id();
            proof {
                let next = self@.subrange(0, i + 1);
                assert(next.drop_last() == self@.subrange(0, i as int));
                assert(next.last() == self@[i as int]);
            }
            if id > best {
                best = id;
            }
            i = i + 1;
        }
        assert(self@.subrange(0, self@.len() as int) == self@);
        best
    }

    /// Reconciles a parsed show with the table: a stored show of that title
    /// is overwritten, a new one inserted. Returns what was written, or
    /// `None` where the show is new and the table has no id left.
    pub fn index_podcast(&mut self, pd: &NewPodcast) -> (r: Option<ShowWrite>)
        ensures
            final(self)@ == show_applied(old(self)@, pd@),
            match r {
                Some(w) => show_id(old(self)@, pd@) == Some(w.id as int) && w.inserted
                    == show_is_new(old(self)@, pd@),
                None => show_id(old(self)@, pd@) is None,
            },
    {
        match self.position(pd.title.as_str()) {
            Some(i) => {
                let id = self.rows[i].id();
                assert(self.rows[i as int]@ == self@[i as int]);
                let mut row = self.rows[i].clone();
                row.set_link(pd.link.as_str());
                row.set_description(pd.description.as_str());
                row.set_image_uri(opt_as_str(&pd.image_uri));
                self.rows.set(i, row);
                assert(self@ =~= old(self)@.update(
                    i as int,
                    overwritten_show(old(self)@[i as int], pd@),
                ));
                Some(ShowWrite { id, inserted: false })
            },
            None => {
                let largest = self.largest_id();
                if largest == i32::MAX {
                    None
                } else {
                    let row = Podcast::new(
                        largest + 1,
                        pd.title.as_str(),
                        pd.link.as_str(),
                        pd.description.as_str(),
                        opt_as_str(&pd.image_uri),
                        pd.source_id,
                    );
                    self.rows.push(row);
                    assert(self@ =~= old(self)@.push(
                        inserted_show(pd@, show_max_id(old(self)@) + 1),
                    ));
                    Some(ShowWrite { id: largest + 1, inserted: true })
                }
            },
        }
    }
}

/// The index of the first show at or after `from` with the given id.
pub open spec fn show_with_id_from(rows: Seq<PodcastView>, id: int, from: int) -> Option<int>
    decreases rows.len() - from,
{
    if from < 0 || from >= rows.len() {
        None
    } else if rows[from].id == id {
        Some(from)
    } else {
        show_with_id_from(rows, id, from + 1)
    }
}

/// The index of the first show with the given id.
pub open spec fn show_with_id(rows: Seq<PodcastView>, id: int) -> Option<int> {
    show_with_id_from(rows, id, 0)
}

impl Podcast {
    /// Writes the show back to its row, found by its id. Fails, with the
    /// table left alone, where no row has the id.
    pub fn save(&self, table: &mut ShowTable) -> (r: Result<(), DatabaseError>)
        ensures
            match show_with_id(old(table)@, self@.id) {
                Some(i) => r is Ok && final(table)@ == old(table)@.update(i, self@),
                None => r is Err && final(table)@ == old(table)@,
            },
    {
        let mut i: usize = 0;
        while i < table.rows.len()
            invariant
                i <= table.rows.len(),
                table@ == old(table)@,
                show_with_id(table@, self@.id) == show_with_id_from(table@, self@.id, i as int),
            decreases table.rows.len() - i,
        {
            assert(table.rows[i as int]@ == table@[i as int]);
            if table.rows[i].id() == self.id() {
                table.rows.set(i, self.clone());
                assert(table@ =~= old(table)@.update(i as int, self@));
                return Ok(());
            }
            i = i + 1;
        }
        Err(DatabaseError::DieselResultError("NotFound".to_owned()))
    }
}

/// The shows without those of the given id, the others in their order.
pub open spec fn without_show_id(rows: Seq<PodcastView>, show_id: int) -> Seq<PodcastView>
    decreases rows.len(),
{
    if rows.len() == 0 {
        rows
    } else if rows.last().id == show_id {
        without_show_id(rows.drop_last(), show_id)
    } else {
        without_show_id(rows.drop_last(), show_id).push(rows.last())
    }
}

impl ShowTable {
    /// Removes the show with the given id and tells which source it came
    /// from; `None`, with nothing removed, where no show has the id.
    pub fn delete_show(&mut self, show_id: i32) -> (source_id: Option<i32>)
        ensures
            final(self)@ == without_show_id(old(self)@, show_id as int),
            match show_with_id(old(self)@, show_id as int) {
                Some(i) => {
                    &&& 0 <= i < old(self)@.len()
                    &&& source_id matches Some(s) && s == old(self)@[i].source_id
                },
                None => source_id is None,
            },
    {
        let mut kept: Vec<Podcast> = Vec::new();
        let mut source_id: Option<i32> = None;
        let mut i: usize = 0;
        while i < self.rows.len()
            invariant
                i <= self.rows.len(),
                self@ == old(self)@,
                kept@.map_values(|p: Podcast| p@) == without_show_id(
                    self@.subrange(0, i as int),
                    show_id as int,
                ),
                match source_id {
                    Some(s) => show_with_id(self@, show_id as int) matches Some(k) && 0 <= k < i
                        && self@[k].source_id == s,
                    None => show_with_id(self@, show_id as int) == show_with_id_from(
                        self@,
                        show_id as int,
                        i as int,
                    ),
                },
            decreases self.rows.len() - i,
        {
            proof {
                let next = self@.subrange(0, i + 1);
                assert(next.drop_last() == self@.subrange(0, i as int));
                assert(next.last() == self@[i as int]);
                assert(self.rows[i as int]@ == self@[i as int]);
            }
            let ghost before = kept@.map_values(|p: Podcast| p@);
            if self.rows[i].id() != show_id {
                kept.push(self.rows[i].clone());
                assert(kept@.map_values(|p: Podcast| p@) =~= before.push(self@[i as int]));
            } else if source_id.is_none() {
                source_id = Some(self.rows[i].source_id());
            }
            i = i + 1;
        }
        assert(self@.subrange(0, self.rows.len() as int) == self@);
        self.rows = kept;
        source_id
    }
}

} // verus!
