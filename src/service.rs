use vstd::prelude::*;
use crate::handlers::{
    create_reply, delete_reply, duplicate_title_text, is_not_found, list_reply, merged, page_window,
    requested_limit, requested_offset, requested_page, update_plan, update_reply, window_error_reply,
    window_error_of, window_error_text, window_fits, Body, Reply,
};
use crate::schema::{CreateMovieSchema, CreateView, FilterOptions, UpdateMovieSchema, UpdateView};
use crate::table::{
    has_id, has_title, index_of, movies_view, new_row, page_rows, title_taken_by_other, MovieTable,
    TableView,
};

verus! {

/// The status of a listing: 400 when its parameters name no valid window, else 200.
pub open spec fn list_status(o: FilterOptions) -> u16 {
    if requested_page(o) >= 1 && window_fits(o) { 200 } else { 400 }
}

/// The status of a creation: 400 when the title is taken, 500 when no identifier is
/// left, else 200.
pub open spec fn create_status(t: TableView, c: CreateView) -> u16 {
    if has_title(t.rows, c.title) {
        400
    } else if t.next_id == u128::MAX {
        500
    } else {
        200
    }
}

/// The table after a creation: the new row is appended under the next identifier when
/// the creation succeeds; otherwise nothing changes.
pub open spec fn after_create(t: TableView, c: CreateView) -> TableView {
    if create_status(t, c) == 200 {
        TableView { rows: t.rows.push(new_row(t.next_id, c)), next_id: (t.next_id + 1) as u128 }
    } else {
        t
    }
}

/// The row that an update of `id` writes.
pub open spec fn updated_row(t: TableView, id: u128, u: UpdateView) -> crate::model::MovieView {
    merged(t.rows[index_of(t.rows, id)], u)
}

/// The status of an update: 404 when no row has `id`, 500 when another row has the new
/// title, else 200.
pub open spec fn update_status(t: TableView, id: u128, u: UpdateView) -> u16 {
    if !has_id(t.rows, id) {
        404
    } else if title_taken_by_other(t.rows, id, updated_row(t, id, u).title) {
        500
    } else {
        200
    }
}

/// The table after an update: only the row with `id` is rewritten, and only on success.
pub open spec fn after_update(t: TableView, id: u128, u: UpdateView) -> TableView {
    if update_status(t, id, u) == 200 {
        TableView {
            rows: t.rows.update(index_of(t.rows, id), updated_row(t, id, u)),
            next_id: t.next_id,
        }
    } else {
        t
    }
}

/// The status of a deletion: 200 when a row has `id`, else 404.
pub open spec fn delete_status(t: TableView, id: u128) -> u16 {
    if has_id(t.rows, id) { 200 } else { 404 }
}

/// The table after a deletion: the row with `id`, if any, is gone.
pub open spec fn after_delete(t: TableView, id: u128) -> TableView {
    if has_id(t.rows, id) {
        TableView { rows: t.rows.remove(index_of(t.rows, id)), next_id: t.next_id }
    } else {
        t
    }
}

/// Lists one page of the table, in ascending identifier order.
pub fn get_all_movies(table: &MovieTable, opts: &FilterOptions) -> (r: Reply)
    requires
        table.wf(),
    ensures
        r.status == list_status(*opts),
        r.status == 200 ==> (r.body matches Body::MovieList { movies } && movies_view(movies@)
            == page_rows(table@.rows, requested_offset(*opts), requested_limit(*opts))),
        r.status == 400 ==> (r.body matches Body::Fail { message } && message@ == window_error_text(
            window_error_of(*opts),
        )),
{
    match page_window(opts) {
        Ok(w) => list_reply(Ok(table.select(w.offset, w.limit))),
        Err(e) => window_error_reply(e),
    }
}

/// Stores a new movie.
pub fn add_new_movie(table: &mut MovieTable, body: &CreateMovieSchema) -> (r: Reply)
    requires
        old(table).wf(),
    ensures
        final(table).wf(),
        final(table)@ == after_create(old(table)@, body@),
        r.status == create_status(old(table)@, body@),
        r.status == 200 ==> r.body is Created,
        r.status == 400 ==> (r.body matches Body::Fail { message } && message@ == duplicate_title_text()),
        r.status == 500 ==> r.body is Error,
{
    let outcome = table.insert(body);
    create_reply(outcome)
}

/// Applies a partial update to the movie with identifier `id`.
pub fn update_movie(table: &mut MovieTable, id: u128, body: &UpdateMovieSchema) -> (r: Reply)
    requires
        old(table).wf(),
    ensures
        final(table).wf(),
        final(table)@ == after_update(old(table)@, id, body@),
        r.status == update_status(old(table)@, id, body@),
        r.status == 200 ==> r.body is Updated,
        r.status == 404 ==> is_not_found(r, id),
        r.status == 500 ==> r.body is Error,
{
    let found = table.find(id);
    match update_plan(id, body, Ok(found)) {
        Err(reply) => reply,
        Ok(row) => {
            let outcome = table.update(row);
            update_reply(id, outcome)
        },
    }
}

/// Deletes the movie with identifier `id`.
pub fn delete_movie(table: &mut MovieTable, id: u128) -> (r: Reply)
    requires
        old(table).wf(),
    ensures
        final(table).wf(),
        final(table)@ == after_delete(old(table)@, id),
        r.status == delete_status(old(table)@, id),
        r.status == 200 ==> r.body is Deleted,
        r.status == 404 ==> is_not_found(r, id),
{
    let n = table.remove(id);
    delete_reply(id, Ok(n))
}

} // verus!
