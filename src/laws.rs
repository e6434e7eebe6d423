use vstd::prelude::*;
use crate::schema::{CreateView, UpdateView};
use crate::service::{
    after_create, after_delete, after_update, create_status, delete_status, update_status,
};
use crate::table::{has_id, has_title, index_of, new_row, page_rows, title_taken_by_other, TableView};

verus! {

/// A successful creation keeps the table well formed.
proof fn lemma_create_keeps_wf(t: TableView, c: CreateView)
    requires
        t.wf(),
        create_status(t, c) == 200,
    ensures
        after_create(t, c).wf(),
{
    let t1 = after_create(t, c);
    assert forall|i: int, j: int|
        0 <= i < t1.rows.len() && 0 <= j < t1.rows.len() && i != j implies t1.rows[i].title
        != t1.rows[j].title by {
        if i == t.rows.len() {
            assert(!(t.rows[j].title == c.title));
        } else if j == t.rows.len() {
            assert(!(t.rows[i].title == c.title));
        }
    }
}

/// A movie created with a fresh title is stored under an identifier that no earlier row
/// has, with exactly the submitted fields, and a listing of the first page whose size
/// covers the table returns it.
pub proof fn lemma_created_row_listed(t: TableView, c: CreateView, limit: int)
    requires
        t.wf(),
        !has_title(t.rows, c.title),
        t.next_id < u128::MAX,
        limit >= t.rows.len() + 1,
    ensures
        create_status(t, c) == 200,
        !has_id(t.rows, t.next_id),
        page_rows(after_create(t, c).rows, 0, limit).contains(new_row(t.next_id, c)),
{
    let rows = after_create(t, c).rows;
    assert(page_rows(rows, 0, limit) =~= rows);
    assert(rows[t.rows.len() as int] == new_row(t.next_id, c));
}

/// Creating two movies with the same title: the first is stored, the second is refused
/// with 400 and stores nothing.
pub proof fn lemma_duplicate_title_rejected(t: TableView, c: CreateView)
    requires
        t.wf(),
        !has_title(t.rows, c.title),
        t.next_id < u128::MAX,
    ensures
        create_status(t, c) == 200,
        after_create(t, c).rows.len() == t.rows.len() + 1,
        create_status(after_create(t, c), c) == 400,
        after_create(after_create(t, c), c) == after_create(t, c),
{
    let t1 = after_create(t, c);
    assert(t1.rows[t.rows.len() as int].title == c.title);
}

/// Updating an identifier that no row has answers 404 and changes nothing.
pub proof fn lemma_update_missing_id(t: TableView, id: u128, u: UpdateView)
    requires
        !has_id(t.rows, id),
    ensures
        update_status(t, id, u) == 404,
        after_update(t, id, u) == t,
{
}

/// A successful update rewrites only the targeted row: in it each supplied field takes the
/// new value and each absent one keeps its value; every other row stays as it was.
pub proof fn lemma_update_targets_one_row(t: TableView, id: u128, u: UpdateView)
    requires
        t.wf(),
        has_id(t.rows, id),
        !title_taken_by_other(t.rows, id, match u.title { Some(x) => x, None => t.rows[index_of(t.rows, id)].title }),
    ensures
        update_status(t, id, u) == 200,
        ({
            let k = index_of(t.rows, id);
            let old_row = t.rows[k];
            let new_row = after_update(t, id, u).rows[k];
            &&& after_update(t, id, u).rows.len() == t.rows.len()
            &&& forall|j: int| 0 <= j < t.rows.len() && j != k ==> after_update(t, id, u).rows[j] == t.rows[j]
            &&& new_row.id == id
            &&& new_row.title == match u.title { Some(x) => x, None => old_row.title }
            &&& new_row.description == match u.description { Some(x) => x, None => old_row.description }
            &&& new_row.genre == match u.genre { Some(x) => Some(x), None => old_row.genre }
            &&& new_row.actors == match u.actors { Some(x) => Some(x), None => old_row.actors }
        }),
{
    let k = index_of(t.rows, id);
    assert(0 <= k < t.rows.len() && t.rows[k].id == id);
}

/// Deleting a stored identifier answers 200 and removes exactly that row, keeping the
/// order of the others; deleting it again answers 404.
pub proof fn lemma_delete_then_missing(t: TableView, id: u128)
    requires
        t.wf(),
        has_id(t.rows, id),
    ensures
        delete_status(t, id) == 200,
        after_delete(t, id).rows.len() == t.rows.len() - 1,
        !has_id(after_delete(t, id).rows, id),
        forall|i: int| 0 <= i < t.rows.len() && t.rows[i].id != id ==> after_delete(t, id).rows.contains(t.rows[i]),
        delete_status(after_delete(t, id), id) == 404,
{
    let k = index_of(t.rows, id);
    assert(0 <= k < t.rows.len() && t.rows[k].id == id);
    let rows = after_delete(t, id).rows;
    assert forall|j: int| 0 <= j < rows.len() implies rows[j].id != id by {
        if j < k {
            assert(t.rows[j].id < t.rows[k].id);
        } else {
            assert(t.rows[k].id < t.rows[j + 1].id);
        }
    }
    assert forall|i: int| 0 <= i < t.rows.len() && t.rows[i].id != id implies rows.contains(t.rows[i]) by {
        if i < k {
            assert(rows[i] == t.rows[i]);
        } else {
            assert(i != k);
            assert(rows[i - 1] == t.rows[i]);
        }
    }
}

/// The table after a sequence of creations, applied in order.
pub open spec fn create_all(t: TableView, cs: Seq<CreateView>) -> TableView
    decreases cs.len(),
{
    if cs.len() == 0 {
        t
    } else {
        after_create(create_all(t, cs.drop_last()), cs.last())
    }
}

/// The titles of a sequence of requests are pairwise distinct and none is stored yet.
pub open spec fn fresh_titles(t: TableView, cs: Seq<CreateView>) -> bool {
    &&& forall|i: int, j: int| 0 <= i < j < cs.len() ==> cs[i].title != cs[j].title
    &&& forall|i: int| 0 <= i < cs.len() ==> !has_title(t.rows, #[trigger] cs[i].title)
}

/// Creating movies with distinct fresh titles, in whatever order they arrive, loses none
/// of them: each request adds exactly one row under its own identifier, with its fields,
/// and the identifiers stay unique.
pub proof fn lemma_creations_all_stored(t: TableView, cs: Seq<CreateView>)
    requires
        t.wf(),
        fresh_titles(t, cs),
        t.next_id + cs.len() < u128::MAX,
    ensures
        create_all(t, cs).wf(),
        create_all(t, cs).rows.len() == t.rows.len() + cs.len(),
        create_all(t, cs).rows.subrange(0, t.rows.len() as int) == t.rows,
        forall|i: int| 0 <= i < cs.len() ==> create_all(t, cs).rows[t.rows.len() + i] == new_row(
            (t.next_id + i) as u128,
            #[trigger] cs[i],
        ),
        create_all(t, cs).next_id == t.next_id + cs.len(),
    decreases cs.len(),
{
    if cs.len() > 0 {
        let prev = cs.drop_last();
        assert(fresh_titles(t, prev)) by {
            assert forall|i: int| 0 <= i < prev.len() implies !has_title(t.rows, #[trigger] prev[i].title) by {
                assert(prev[i] == cs[i]);
            }
        }
        lemma_creations_all_stored(t, prev);
        let t0 = create_all(t, prev);
        let c = cs.last();
        assert(!has_title(t0.rows, c.title)) by {
            if has_title(t0.rows, c.title) {
                let k = choose|k: int| 0 <= k < t0.rows.len() && t0.rows[k].title == c.title;
                if k < t.rows.len() {
                    assert(t0.rows.subrange(0, t.rows.len() as int)[k] == t.rows[k]);
                    assert(!has_title(t.rows, cs[cs.len() - 1].title));
                } else {
                    let i = k - t.rows.len();
                    assert(t0.rows[t.rows.len() + i] == new_row((t.next_id + i) as u128, prev[i]));
                    assert(prev[i] == cs[i]);
                }
            }
        }
        lemma_create_keeps_wf(t0, c);
        let t1 = create_all(t, cs);
        assert(t1.rows.subrange(0, t.rows.len() as int) =~= t.rows) by {
            assert forall|k: int| 0 <= k < t.rows.len() implies t1.rows[k] == t.rows[k] by {
                assert(t0.rows.subrange(0, t.rows.len() as int)[k] == t.rows[k]);
            }
        }
        assert forall|i: int| 0 <= i < cs.len() implies t1.rows[t.rows.len() + i] == new_row(
            (t.next_id + i) as u128,
            #[trigger] cs[i],
        ) by {
            if i < prev.len() {
                assert(t0.rows[t.rows.len() + i] == new_row((t.next_id + i) as u128, prev[i]));
                assert(prev[i] == cs[i]);
            }
        }
    }
}

} // verus!
