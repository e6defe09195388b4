//! The subscribed sources. No two of them have the same address.

use crate::errors::{DatabaseError, HttpError, SourceError};
use crate::models::{Source, SourceView};
use crate::text::str_eq;
use vstd::prelude::*;

verus! {

/// The normal form that `url::Url::parse` gives an address, or `None` where
/// it refuses the text.
pub uninterp spec fn url_normal_form(text: Seq<char>) -> Option<Seq<char>>;

/// Parses an address with `url::Url::parse` and gives its normal form
/// (`Url::as_str`), or the reason why the text is no URL. The contract only
/// names the outcome.
#[verifier::external_body]
pub(crate) fn parse_url(text: &str) -> (r: Result<String, url::ParseError>)
    ensures
        match r {
            Ok(u) => url_normal_form(text@) == Some(u@),
            Err(_) => url_normal_form(text@) is None,
        },
{
    url::Url::parse(text).map(|u| u.as_str().to_string())
}

/// The index of the first source at or after `from` with the given address.
pub open spec fn source_lookup_from(rows: Seq<SourceView>, uri: Seq<char>, from: int) -> Option<
    int,
>
    decreases rows.len() - from,
{
    if from < 0 || from >= rows.len() {
        None
    } else if rows[from].uri == uri {
        Some(from)
    } else {
        source_lookup_from(rows, uri, from + 1)
    }
}

/// The index of the first source with the given address.
pub open spec fn source_lookup(rows: Seq<SourceView>, uri: Seq<char>) -> Option<int> {
    source_lookup_from(rows, uri, 0)
}

/// The largest source id in use, or 0 where there is none.
pub open spec fn source_max_id(rows: Seq<SourceView>) -> int
    decreases rows.len(),
{
    if rows.len() == 0 {
        0
    } else if rows.last().id > source_max_id(rows.drop_last()) {
        rows.last().id
    } else {
        source_max_id(rows.drop_last())
    }
}

/// No two sources have the same address.
pub open spec fn unique_uris(rows: Seq<SourceView>) -> bool {
    forall|i: int, j: int|
        0 <= i < j < rows.len() ==> (#[trigger] rows[i]).uri != (#[trigger] rows[j]).uri
}

/// A source that has never been fetched.
pub open spec fn fresh_source(id: int, uri: Seq<char>) -> SourceView {
    SourceView { id, uri, last_modified: None, http_etag: None }
}

/// The sources after a subscription to `uri`: as before where the address
/// is known or no id is left, with a fresh source at the end otherwise.
pub open spec fn subscribed(rows: Seq<SourceView>, uri: Seq<char>) -> Seq<SourceView> {
    if source_lookup(rows, uri) is None && source_max_id(rows) < i32::MAX {
        rows.push(fresh_source(source_max_id(rows) + 1, uri))
    } else {
        rows
    }
}

proof fn lemma_source_lookup_from(rows: Seq<SourceView>, uri: Seq<char>, from: int)
    requires
        0 <= from,
    ensures
        match source_lookup_from(rows, uri, from) {
            Some(i) => from <= i < rows.len() && rows[i].uri == uri && forall|j: int|
                from <= j < i ==> (#[trigger] rows[j]).uri != uri,
            None => forall|j: int| from <= j < rows.len() ==> (#[trigger] rows[j]).uri != uri,
        },
    decreases rows.len() - from,
{
    if from < rows.len() && rows[from].uri != uri {
        lemma_source_lookup_from(rows, uri, from + 1);
    }
}

/// What `source_lookup` finds: the first source with the address, and none
/// where no source has it.
pub proof fn lemma_source_lookup(rows: Seq<SourceView>, uri: Seq<char>)
    ensures
        match source_lookup(rows, uri) {
            Some(i) => 0 <= i < rows.len() && rows[i].uri == uri && forall|j: int|
                0 <= j < i ==> (#[trigger] rows[j]).uri != uri,
            None => forall|j: int| 0 <= j < rows.len() ==> (#[trigger] rows[j]).uri != uri,
        },
{
    lemma_source_lookup_from(rows, uri, 0);
}

/// Subscribing keeps the addresses distinct.
pub proof fn lemma_subscribed_unique(rows: Seq<SourceView>, uri: Seq<char>)
    requires
        unique_uris(rows),
    ensures
        unique_uris(subscribed(rows, uri)),
{
    lemma_source_lookup(rows, uri);
}

/// The subscribed sources, in the order in which they were added.
pub struct SourceTable {
    rows: Vec<Source>,
}

impl View for SourceTable {
    type V = Seq<SourceView>;

    closed spec fn view(&self) -> Seq<SourceView> {
        self.rows@.map_values(|s: Source| s@)
    }
}

impl SourceTable {
    /// An empty table.
    pub fn new() -> (t: SourceTable)
        ensures
            t@.len() == 0,
            unique_uris(t@),
    {
        let t = SourceTable { rows: Vec::new() };
        assert(t@ =~= Seq::empty());
        t
    }

    /// A table holding the given rows, in their order.
    pub fn from_rows(rows: Vec<Source>) -> (t: SourceTable)
        ensures
            t@ == rows@.map_values(|s: Source| s@),
    {
        SourceTable { rows }
    }

    /// The number of sources.
    pub fn len(&self) -> (n: usize)
        ensures
            n == self@.len(),
    {
        self.rows.len()
    }

    /// The source at position `i`.
    pub fn row(&self, i: usize) -> (s: &Source)
        requires
            i < self@.len(),
        ensures
            s@ == self@[i as int],
    {
        &self.rows[i]
    }

    /// The position of the source with this address.
    pub fn position(&self, uri: &str) -> (r: Option<usize>)
        ensures
            match r {
                Some(i) => i < self@.len() && source_lookup(self@, uri@) == Some(i as int),
                None => source_lookup(self@, uri@) is None,
            },
    {
        let mut i: usize = 0;
        while i < self.rows.len()
            invariant
                i <= self.rows.len(),
                forall|j: int| 0 <= j < i ==> (#[trigger] self@[j]).uri != uri@,
            decreases self.rows.len() - i,
        {
            let row = &self.rows[i];
            assert(row@ == self@[i as int]);
            if str_eq(row.uri(), uri) {
                proof {
                    lemma_source_lookup(self@, uri@);
                }
                return Some(i);
            }
            i = i + 1;
        }
        proof {
            lemma_source_lookup(self@, uri@);
        }
        None
    }

    /// Whether a source with this address is subscribed.
    pub fn source_exists(&self, uri: &str) -> (found: bool)
        ensures
            found == source_lookup(self@, uri@).is_some(),
    {
        self.position(uri).is_some()
    }

    /// The largest source id in use, or 0 for an empty table.
    pub fn largest_id(&self) -> (id: i32)
        ensures
            id == source_max_id(self@),
    {
        let mut best: i32 = 0;
        let mut i: usize = 0;
        while i < self.rows.len()
            invariant
                i <= self.rows.len(),
                best == source_max_id(self@.subrange(0, i as int)),
            decreases self.rows.len() - i,
        {
            let id = self.rows[i].id();
            proof {
                let next = self@.subrange(0, i + 1);
                assert(next.drop_last() == self@.subrange(0, i as int));
                assert(next.last() == self@[i as int]);
            }
            if id > best {
                best = id;
            }
            i = i + 1;
        }
        assert(self@.subrange(0, self@.len() as int) == self@);
        best
    }

    /// Subscribes to an address that is not yet known and gives the position
    /// of its source; a known address gives the position of the source that
    /// is there. `None` where a new source is needed and no id is left.
    pub fn insert_source(&mut self, uri: &str) -> (r: Option<usize>)
        ensures
            final(self)@ == subscribed(old(self)@, uri@),
            match r {
                Some(i) => i < final(self)@.len() && final(self)@[i as int].uri == uri@,
                None => source_lookup(old(self)@, uri@) is None && source_max_id(old(self)@)
                    >= i32::MAX,
            },
    {
        proof {
            lemma_source_lookup(self@, uri@);
        }
        match self.position(uri) {
            Some(i) => Some(i),
            None => {
                let largest = self.largest_id();
                if largest == i32::MAX {
                    None
                } else {
                    self.rows.push(Source::new(largest + 1, uri, None, None));
                    assert(self@ =~= old(self)@.push(
                        fresh_source(source_max_id(old(self)@) + 1, uri@),
                    ));
                    Some(self.rows.len() - 1)
                }
            },
        }
    }
}

impl Source {
    /// Subscribes to the feed at `uri`. The text must be a URL; it is stored
    /// as it was written. Gives the position of the source in the table.
    pub fn from_url(table: &mut SourceTable, uri: &str) -> (r: Result<usize, SourceError>)
        ensures
            match url_normal_form(uri@) {
                None => r matches Err(SourceError::Http(e)) && e is UrlError && final(table)@
                    == old(table)@,
                Some(_) => final(table)@ == subscribed(old(table)@, uri@) && match r {
                    Ok(i) => i < final(table)@.len() && final(table)@[i as int].uri == uri@,
                    Err(e) => e is OutOfIds && source_lookup(old(table)@, uri@) is None
                        && source_max_id(old(table)@) >= i32::MAX,
                },
            },
    {
        match parse_url(uri) {
            Err(e) => Err(SourceError::Http(HttpError::UrlError(e))),
            Ok(_) => match table.insert_source(uri) {
                Some(i) => Ok(i),
                None => Err(SourceError::OutOfIds),
            },
        }
    }
}

/// The index of the first source at or after `from` with the given id.
pub open spec fn source_with_id_from(rows: Seq<SourceView>, id: int, from: int) -> Option<int>
    decreases rows.len() - from,
{
    if from < 0 || from >= rows.len() {
        None
    } else if rows[from].id == id {
        Some(from)
    } else {
        source_with_id_from(rows, id, from + 1)
    }
}

/// The index of the first source with the given id.
pub open spec fn source_with_id(rows: Seq<SourceView>, id: int) -> Option<int> {
    source_with_id_from(rows, id, 0)
}

impl Source {
    /// Writes the source back to its row, found by its id: this is how the
    /// validators of a response are kept. Fails, with the table left alone,
    /// where no row has the id.
    pub fn save(&self, table: &mut SourceTable) -> (r: Result<(), DatabaseError>)
        ensures
            match source_with_id(old(table)@, self@.id) {
                Some(i) => r is Ok && final(table)@ == old(table)@.update(i, self@),
                None => r is Err && final(table)@ == old(table)@,
            },
    {
        let mut i: usize = 0;
        while i < table.rows.len()
            invariant
                i <= table.rows.len(),
                table@ == old(table)@,
                source_with_id(table@, self@.id) == source_with_id_from(
                    table@,
                    self@.id,
                    i as int,
                ),
            decreases table.rows.len() - i,
        {
            assert(table.rows[i as int]@ == table@[i as int]);
            if table.rows[i].id() == self.id() {
                table.rows.set(i, self.clone());
                assert(table@ =~= old(table)@.update(i as int, self@));
                return Ok(());
            }
            i = i + 1;
        }
        Err(DatabaseError::DieselResultError("NotFound".to_owned()))
    }
}

/// The sources without those of the given id, the others in their order.
pub open spec fn without_source_id(rows: Seq<SourceView>, source_id: int) -> Seq<SourceView>
    decreases rows.len(),
{
    if rows.len() == 0 {
        rows
    } else if rows.last().id == source_id {
        without_source_id(rows.drop_last(), source_id)
    } else {
        without_source_id(rows.drop_last(), source_id).push(rows.last())
    }
}

impl SourceTable {
    /// Removes the source with the given id. The others stay, in their
    /// order.
    pub fn delete_source(&mut self, source_id: i32)
        ensures
            final(self)@ == without_source_id(old(self)@, source_id as int),
    {
        let mut kept: Vec<Source> = Vec::new();
        let mut i: usize = 0;
        while i < self.rows.len()
            invariant
                i <= self.rows.len(),
                self@ == old(self)@,
                kept@.map_values(|s: Source| s@) == without_source_id(
                    self@.subrange(0, i as int),
                    source_id as int,
                ),
            decreases self.rows.len() - i,
        {
            proof {
                let next = self@.subrange(0, i + 1);
                assert(next.drop_last() == self@.subrange(0, i as int));
                assert(next.last() == self@[i as int]);
                assert(self.rows[i as int]@ == self@[i as int]);
            }
            let ghost before = kept@.map_values(|s: Source| s@);
            if self.rows[i].id() != source_id {
                kept.push(self.rows[i].clone());
                assert(kept@.map_values(|s: Source| s@) =~= before.push(self@[i as int]));
            }
            i = i + 1;
        }
        assert(self@.subrange(0, self.rows.len() as int) == self@);
        self.rows = kept;
    }
}

} // verus!
