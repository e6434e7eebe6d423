use vstd::prelude::*;
use crate::model::{copy_strings, MovieView, Movies};
use crate::schema::{CreateMovieSchema, CreateView};

verus! {

/// Why a storage statement failed: a unique constraint (title or identifier) was hit,
/// or anything else happened. Both carry the storage layer's diagnostic text.
pub enum StoreError {
    UniqueViolation { detail: String },
    Other { detail: String },
}

/// The abstract content of a table: its rows in ascending identifier order, and the
/// identifier that the next insertion receives.
pub struct TableView {
    pub rows: Seq<MovieView>,
    pub next_id: u128,
}

/// Identifiers strictly ascend, all lie below the next one, and titles are unique.
pub open spec fn rows_wf(rows: Seq<MovieView>, next_id: u128) -> bool {
    &&& forall|i: int, j: int| 0 <= i < j < rows.len() ==> rows[i].id < rows[j].id
    &&& forall|i: int| 0 <= i < rows.len() ==> rows[i].id < next_id
    &&& forall|i: int, j: int|
        0 <= i < rows.len() && 0 <= j < rows.len() && i != j ==> rows[i].title != rows[j].title
}

impl TableView {
    pub open spec fn wf(self) -> bool {
        rows_wf(self.rows, self.next_id)
    }
}

/// Some row has this identifier.
pub open spec fn has_id(rows: Seq<MovieView>, id: u128) -> bool {
    exists|i: int| 0 <= i < rows.len() && rows[i].id == id
}

/// Some row has this title.
pub open spec fn has_title(rows: Seq<MovieView>, title: Seq<char>) -> bool {
    exists|i: int| 0 <= i < rows.len() && rows[i].title == title
}

/// A row other than the one with identifier `id` has this title.
pub open spec fn title_taken_by_other(rows: Seq<MovieView>, id: u128, title: Seq<char>) -> bool {
    exists|i: int| 0 <= i < rows.len() && rows[i].id != id && rows[i].title == title
}

/// The position of the row with identifier `id`.
pub open spec fn index_of(rows: Seq<MovieView>, id: u128) -> int {
    choose|i: int| 0 <= i < rows.len() && rows[i].id == id
}

/// The rows that a listing with this offset and size returns.
pub open spec fn page_rows(rows: Seq<MovieView>, offset: int, limit: int) -> Seq<MovieView> {
    let lo = if offset < rows.len() { offset } else { rows.len() as int };
    let hi = if offset + limit < rows.len() { offset + limit } else { rows.len() as int };
    rows.subrange(lo, hi)
}

/// The row that a creation request stores under a given identifier.
pub open spec fn new_row(id: u128, c: CreateView) -> MovieView {
    MovieView {
        id,
        title: c.title,
        description: c.description,
        genre: Some(c.genre),
        actors: Some(c.actors),
    }
}

/// What a sequence of rows holds.
pub open spec fn movies_view(v: Seq<Movies>) -> Seq<MovieView> {
    v.map_values(|m: Movies| m@)
}

/// The row with identifier `id`, when there is one, is found at `i`.
proof fn lemma_index_of(rows: Seq<MovieView>, next_id: u128, id: u128, i: int)
    requires
        rows_wf(rows, next_id),
        0 <= i < rows.len(),
        rows[i].id == id,
    ensures
        index_of(rows, id) == i,
{
    let k = index_of(rows, id);
    assert(0 <= k < rows.len() && rows[k].id == id);
    if k < i {
        assert(rows[k].id < rows[i].id);
    } else if i < k {
        assert(rows[i].id < rows[k].id);
    }
}

/// An in-memory movie table with the storage rules of the persisted one: identifiers are
/// assigned on insertion in increasing order, titles are unique, and rows are kept in
/// ascending identifier order.
pub struct MovieTable {
    rows: Vec<Movies>,
    next_id: u128,
}

impl View for MovieTable {
    type V = TableView;

    closed spec fn view(&self) -> TableView {
        TableView { rows: movies_view(self.rows@), next_id: self.next_id }
    }
}

impl MovieTable {
    pub open spec fn wf(&self) -> bool {
        self@.wf()
    }

    /// An empty table; the first identifier it assigns is 1.
    pub fn new() -> (r: MovieTable)
        ensures
            r.wf(),
            r@.rows.len() == 0,
            r@.next_id == 1,
    {
        MovieTable { rows: Vec::new(), next_id: 1 }
    }

    /// The number of rows.
    pub fn len(&self) -> (r: usize)
        ensures
            r == self@.rows.len(),
    {
        self.rows.len()
    }

    /// A copy of the row at position `i`.
    pub fn row(&self, i: usize) -> (r: Movies)
        requires
            i < self@.rows.len(),
        ensures
            r@ == self@.rows[i as int],
    {
        self.rows[i].duplicate()
    }

    /// The position of the row with identifier `id`, if any.
    fn position(&self, id: u128) -> (r: Option<usize>)
        requires
            self.wf(),
        ensures
            match r {
                Some(i) => has_id(self@.rows, id) && i == index_of(self@.rows, id),
                None => !has_id(self@.rows, id),
            },
    {
        let mut i: usize = 0;
        while i < self.rows.len()
            invariant
                self.wf(),
                i <= self.rows.len(),
                forall|j: int| 0 <= j < i ==> self@.rows[j].id != id,
            decreases self.rows.len() - i,
        {
            if self.rows[i].id == id {
                proof {
                    lemma_index_of(self@.rows, self.next_id, id, i as int);
                }
                return Some(i);
            }
            i = i + 1;
        }
        None
    }

    /// The identifier of the row with this title, if any.
    fn title_owner(&self, title: &String) -> (r: Option<u128>)
        requires
            self.wf(),
        ensures
            match r {
                Some(o) => has_title(self@.rows, title@) && has_id(self@.rows, o)
                    && self@.rows[index_of(self@.rows, o)].title == title@,
                None => !has_title(self@.rows, title@),
            },
            forall|id: u128|
                title_taken_by_other(self@.rows, id, title@) <==> (r matches Some(o) && o != id),
    {
        let mut i: usize = 0;
        while i < self.rows.len()
            invariant
                self.wf(),
                i <= self.rows.len(),
                forall|j: int| 0 <= j < i ==> self@.rows[j].title != title@,
            decreases self.rows.len() - i,
        {
            if self.rows[i].title == *title {
                let o = self.rows[i].id;
                proof {
                    lemma_index_of(self@.rows, self.next_id, o, i as int);
                    assert forall|id: u128|
                        title_taken_by_other(self@.rows, id, title@) <==> o != id by {
                        if title_taken_by_other(self@.rows, id, title@) {
                            let k = choose|k: int|
                                0 <= k < self@.rows.len() && self@.rows[k].id != id
                                    && self@.rows[k].title == title@;
                            assert(k == i);
                        }
                    }
                }
                return Some(o);
            }
            i = i + 1;
        }
        None
    }

    /// The rows from position `offset` on, at most `limit` of them, in identifier order.
    pub fn select(&self, offset: u64, limit: u64) -> (r: Vec<Movies>)
        ensures
            movies_view(r@) == page_rows(self@.rows, offset as int, limit as int),
    {
        let len = self.rows.len();
        let lo: usize = if (offset as u128) < (len as u128) { offset as usize } else { len };
        let hi: usize = if (offset as u128) + (limit as u128) < (len as u128) {
            (offset + limit) as usize
        } else {
            len
        };
        let mut r: Vec<Movies> = Vec::new();
        let mut i: usize = lo;
        while i < hi
            invariant
                lo <= i <= hi <= len == self.rows.len(),
                movies_view(r@) == self@.rows.subrange(lo as int, i as int),
            decreases hi - i,
        {
            let m = self.rows[i].duplicate();
            let ghost prev = r@;
            r.push(m);
            assert(movies_view(r@) =~= movies_view(prev).push(self@.rows[i as int]));
            i = i + 1;
            assert(movies_view(r@) =~= self@.rows.subrange(lo as int, i as int));
        }
        assert(movies_view(r@) =~= page_rows(self@.rows, offset as int, limit as int));
        r
    }

    /// A copy of the row with identifier `id`, if any.
    pub fn find(&self, id: u128) -> (r: Option<Movies>)
        requires
            self.wf(),
        ensures
            match r {
                Some(m) => has_id(self@.rows, id) && m@ == self@.rows[index_of(self@.rows, id)],
                None => !has_id(self@.rows, id),
            },
    {
        match self.position(id) {
            Some(i) => Some(self.rows[i].duplicate()),
            None => None,
        }
    }

    /// Stores a new row under the next identifier. Fails, leaving the table as it was, when
    /// the title is taken or the identifiers are exhausted.
    pub fn insert(&mut self, c: &CreateMovieSchema) -> (r: Result<u128, StoreError>)
        requires
            old(self).wf(),
        ensures
            final(self).wf(),
            has_title(old(self)@.rows, c@.title) ==> (r matches Err(StoreError::UniqueViolation { .. }))
                && final(self)@ == old(self)@,
            !has_title(old(self)@.rows, c@.title) && old(self)@.next_id == u128::MAX ==> (r matches Err(
                StoreError::Other { .. },
            )) && final(self)@ == old(self)@,
            !has_title(old(self)@.rows, c@.title) && old(self)@.next_id < u128::MAX ==> r == Ok::<
                u128,
                StoreError,
            >(old(self)@.next_id) && final(self)@ == (TableView {
                rows: old(self)@.rows.push(new_row(old(self)@.next_id, c@)),
                next_id: (old(self)@.next_id + 1) as u128,
            }),
    {
        if self.title_owner(&c.title).is_some() {
            return Err(StoreError::UniqueViolation { detail: String::from_str("the title is already taken") });
        }
        if self.next_id == u128::MAX {
            return Err(StoreError::Other { detail: String::from_str("no identifier is left to assign") });
        }
        let id = self.next_id;
        let m = Movies {
            id,
            title: c.title.clone(),
            description: c.description.clone(),
            genre: Some(copy_strings(&c.genre)),
            actors: Some(copy_strings(&c.actors)),
        };
        let ghost old_rows = self@.rows;
        self.rows.push(m);
        self.next_id = id + 1;
        assert(self@.rows =~= old_rows.push(new_row(id, c@)));
        Ok(id)
    }

    /// Rewrites the row whose identifier is `m.id` with `m`, and reports how many rows
    /// changed. Fails, leaving the table as it was, when another row has the new title.
    pub fn update(&mut self, m: Movies) -> (r: Result<u64, StoreError>)
        requires
            old(self).wf(),
        ensures
            final(self).wf(),
            !has_id(old(self)@.rows, m.id) ==> r == Ok::<u64, StoreError>(0) && final(self)@ == old(self)@,
            has_id(old(self)@.rows, m.id) && title_taken_by_other(old(self)@.rows, m.id, m@.title) ==> (
            r matches Err(StoreError::UniqueViolation { .. })) && final(self)@ == old(self)@,
            has_id(old(self)@.rows, m.id) && !title_taken_by_other(old(self)@.rows, m.id, m@.title)
                ==> r == Ok::<u64, StoreError>(1) && final(self)@ == (TableView {
                rows: old(self)@.rows.update(index_of(old(self)@.rows, m.id), m@),
                next_id: old(self)@.next_id,
            }),
    {
        let i = match self.position(m.id) {
            Some(i) => i,
            None => {
                return Ok(0);
            },
        };
        match self.title_owner(&m.title) {
            Some(o) => {
                if o != m.id {
                    return Err(StoreError::UniqueViolation { detail: String::from_str("the title is already taken") });
                }
            },
            None => {},
        }
        let ghost old_rows = self@.rows;
        let ghost mv = m@;
        self.rows.set(i, m);
        assert(self@.rows =~= old_rows.update(i as int, mv));
        proof {
            assert forall|a: int, b: int|
                0 <= a < self@.rows.len() && 0 <= b < self@.rows.len() && a != b implies self@.rows[a].title
                != self@.rows[b].title by {
                if a == i {
                    assert(!(old_rows[b].id != mv.id && old_rows[b].title == mv.title));
                } else if b == i {
                    assert(!(old_rows[a].id != mv.id && old_rows[a].title == mv.title));
                }
            }
        }
        Ok(1)
    }

    /// Deletes the row with identifier `id`, and reports how many rows went.
    pub fn remove(&mut self, id: u128) -> (r: u64)
        requires
            old(self).wf(),
        ensures
            final(self).wf(),
            !has_id(old(self)@.rows, id) ==> r == 0 && final(self)@ == old(self)@,
            has_id(old(self)@.rows, id) ==> r == 1 && final(self)@ == (TableView {
                rows: old(self)@.rows.remove(index_of(old(self)@.rows, id)),
                next_id: old(self)@.next_id,
            }),
    {
        let i = match self.position(id) {
            Some(i) => i,
            None => {
                return 0;
            },
        };
        let ghost old_rows = self@.rows;
        let _gone = self.rows.remove(i);
        assert(self@.rows =~= old_rows.remove(i as int));
        proof {
            assert forall|a: int, b: int| 0 <= a < b < self@.rows.len() implies self@.rows[a].id
                < self@.rows[b].id by {
                let a0 = if a < i { a } else { a + 1 };
                let b0 = if b < i { b } else { b + 1 };
                assert(old_rows[a0].id < old_rows[b0].id);
            }
            assert forall|a: int, b: int|
                0 <= a < self@.rows.len() && 0 <= b < self@.rows.len() && a != b implies self@.rows[a].title
                != self@.rows[b].title by {
                let a0 = if a < i { a } else { a + 1 };
                let b0 = if b < i { b } else { b + 1 };
                assert(old_rows[a0].title != old_rows[b0].title);
            }
        }
        1
    }
}

} // verus!
