use vstd::prelude::*;
use crate::model::{copy_opt_strings, not_found_message, not_found_text, MovieView, Movies};
use crate::schema::{FilterOptions, UpdateMovieSchema, UpdateView};
use crate::table::StoreError;

verus! {

/// The JSON payload of a response, one variant per shape the service sends.
pub enum Body {
    /// `{"message": "pong", "success": true}`
    Pong,
    /// `{"succes": true, "results": <count>, "movies": [...]}`
    MovieList { movies: Vec<Movies> },
    /// `{"success": "true"}`
    Created,
    /// `{"status": "success"}`
    Updated,
    /// `{"success": true}`
    Deleted,
    /// `{"status": "fail", "message": <message>}`
    Fail { message: String },
    /// `{"status": "error", "message": <message>}`
    Error { message: String },
}

/// An HTTP status code with its JSON payload.
pub struct Reply {
    pub status: u16,
    pub body: Body,
}

/// The page size of a listing that names none.
pub const DEFAULT_LIMIT: usize = 11;

/// The largest offset or page size that the storage layer accepts (a signed 64-bit value).
pub const MAX_WINDOW: u64 = 9223372036854775807;

/// The rows a listing asks for: skip `offset`, return at most `limit`.
pub struct Window {
    pub offset: u64,
    pub limit: u64,
}

/// Why the query parameters of a listing name no valid window.
pub enum WindowError {
    /// Pages are numbered from 1.
    PageZero,
    /// The offset or the page size does not fit the storage layer.
    TooLarge,
}

/// The page a listing asks for; the first one when it names none.
pub open spec fn requested_page(o: FilterOptions) -> int {
    match o.page {
        Some(p) => p as int,
        None => 1,
    }
}

/// The page size a listing asks for; the default when it names none.
pub open spec fn requested_limit(o: FilterOptions) -> int {
    match o.limit {
        Some(l) => l as int,
        None => DEFAULT_LIMIT as int,
    }
}

/// The number of rows that precede the requested page.
pub open spec fn requested_offset(o: FilterOptions) -> int {
    (requested_page(o) - 1) * requested_limit(o)
}

/// The window a listing asks for fits the storage layer.
pub open spec fn window_fits(o: FilterOptions) -> bool {
    requested_limit(o) <= MAX_WINDOW && requested_offset(o) <= MAX_WINDOW
}

/// Why a listing whose window is rejected is rejected.
pub open spec fn window_error_of(o: FilterOptions) -> WindowError {
    if requested_page(o) == 0 { WindowError::PageZero } else { WindowError::TooLarge }
}

/// Turns the query parameters of a listing into the window of rows it asks for.
pub fn page_window(opts: &FilterOptions) -> (r: Result<Window, WindowError>)
    ensures
        requested_page(*opts) == 0 ==> r == Err::<Window, WindowError>(WindowError::PageZero),
        requested_page(*opts) >= 1 && !window_fits(*opts) ==> r == Err::<Window, WindowError>(
            WindowError::TooLarge,
        ),
        requested_page(*opts) >= 1 && window_fits(*opts) ==> r == Ok::<Window, WindowError>(
            Window { offset: requested_offset(*opts) as u64, limit: requested_limit(*opts) as u64 },
        ),
{
    let page: usize = match opts.page {
        Some(p) => p,
        None => 1,
    };
    let limit: usize = match opts.limit {
        Some(l) => l,
        None => DEFAULT_LIMIT,
    };
    if page == 0 {
        return Err(WindowError::PageZero);
    }
    if limit as u64 > MAX_WINDOW {
        proof {
            assert(!window_fits(*opts));
        }
        return Err(WindowError::TooLarge);
    }
    let skipped: u64 = (page - 1) as u64;
    match skipped.checked_mul(limit as u64) {
        Some(offset) => {
            if offset > MAX_WINDOW {
                Err(WindowError::TooLarge)
            } else {
                Ok(Window { offset, limit: limit as u64 })
            }
        },
        None => Err(WindowError::TooLarge),
    }
}

/// The message of a rejected listing window.
pub open spec fn window_error_text(e: WindowError) -> Seq<char> {
    match e {
        WindowError::PageZero => "page must be at least 1"@,
        WindowError::TooLarge => "page or limit is too large"@,
    }
}

/// The reply to a listing whose parameters name no valid window: 400.
pub fn window_error_reply(e: WindowError) -> (r: Reply)
    ensures
        r.status == 400,
        r.body matches Body::Fail { message } && message@ == window_error_text(e),
{
    let message = match e {
        WindowError::PageZero => String::from_str("page must be at least 1"),
        WindowError::TooLarge => String::from_str("page or limit is too large"),
    };
    Reply { status: 400, body: Body::Fail { message } }
}

/// The message of a failed listing.
pub open spec fn list_failure_text() -> Seq<char> {
    "Couldn't retrieve all movies"@
}

/// The reply to a listing: the rows with 200, or 500 when the storage layer failed.
pub fn list_reply(outcome: Result<Vec<Movies>, StoreError>) -> (r: Reply)
    ensures
        outcome is Ok ==> r.status == 200 && r.body == (Body::MovieList { movies: outcome->Ok_0 }),
        outcome is Err ==> r.status == 500 && (r.body matches Body::Error { message } && message@
            == list_failure_text()),
{
    match outcome {
        Ok(movies) => Reply { status: 200, body: Body::MovieList { movies } },
        Err(_) => Reply {
            status: 500,
            body: Body::Error { message: String::from_str("Couldn't retrieve all movies") },
        },
    }
}

/// The message of a creation that hit the unique title.
pub open spec fn duplicate_title_text() -> Seq<char> {
    "Movie with that title already exists"@
}

/// The storage layer's diagnostic text of an error.
pub open spec fn detail_text(e: StoreError) -> Seq<char> {
    match e {
        StoreError::UniqueViolation { detail } => detail@,
        StoreError::Other { detail } => detail@,
    }
}

impl StoreError {
    /// A copy of the storage layer's diagnostic text.
    pub fn detail(&self) -> (r: String)
        ensures
            r@ == detail_text(*self),
    {
        match self {
            StoreError::UniqueViolation { detail } => detail.clone(),
            StoreError::Other { detail } => detail.clone(),
        }
    }
}

/// The reply to a creation: 200 when stored, 400 on a unique-constraint violation, and
/// 500 with the storage layer's text on any other failure.
pub fn create_reply(outcome: Result<u128, StoreError>) -> (r: Reply)
    ensures
        outcome is Ok ==> r.status == 200 && r.body is Created,
        (outcome matches Err(StoreError::UniqueViolation { .. })) ==> r.status == 400 && (r.body matches Body::Fail { message }
            && message@ == duplicate_title_text()),
        (outcome matches Err(StoreError::Other { .. })) ==> r.status == 500 && (r.body matches Body::Error { message }
            && message@ == detail_text(outcome->Err_0)),
{
    match outcome {
        Ok(_) => Reply { status: 200, body: Body::Created },
        Err(StoreError::UniqueViolation { .. }) => Reply {
            status: 400,
            body: Body::Fail { message: String::from_str("Movie with that title already exists") },
        },
        Err(StoreError::Other { detail }) => Reply { status: 500, body: Body::Error { message: detail } },
    }
}

/// The message of a failed statement that is reported with its diagnostic text.
pub open spec fn error_text(e: StoreError) -> Seq<char> {
    "Error: "@ + detail_text(e)
}

/// Builds the message of a failed statement.
pub fn error_message(e: &StoreError) -> (r: String)
    ensures
        r@ == error_text(*e),
{
    let mut s = String::from_str("Error: ");
    let d = e.detail();
    s.append(d.as_str());
    s
}

/// A reply of 404 that names the missing identifier.
pub open spec fn is_not_found(r: Reply, id: u128) -> bool {
    r.status == 404 && (r.body matches Body::Fail { message } && message@ == not_found_text(id))
}

/// A reply of 500 that carries the text of a failed statement.
pub open spec fn is_storage_failure(r: Reply, e: StoreError) -> bool {
    r.status == 500 && (r.body matches Body::Error { message } && message@ == error_text(e))
}

/// The row that an update request makes of a stored one: each field the request supplies
/// replaces the stored one, each it leaves out keeps its value (an absent list stays absent).
pub open spec fn merged(m: MovieView, u: UpdateView) -> MovieView {
    MovieView {
        id: m.id,
        title: match u.title { Some(t) => t, None => m.title },
        description: match u.description { Some(d) => d, None => m.description },
        genre: match u.genre { Some(g) => Some(g), None => m.genre },
        actors: match u.actors { Some(a) => Some(a), None => m.actors },
    }
}

/// Applies an update request to a stored row.
pub fn merge_update(existing: Movies, body: &UpdateMovieSchema) -> (r: Movies)
    ensures
        r@ == merged(existing@, body@),
{
    let title = match &body.title {
        Some(t) => t.clone(),
        None => existing.title,
    };
    let description = match &body.description {
        Some(d) => d.clone(),
        None => existing.description,
    };
    let genre = match &body.genre {
        Some(_) => copy_opt_strings(&body.genre),
        None => existing.genre,
    };
    let actors = match &body.actors {
        Some(_) => copy_opt_strings(&body.actors),
        None => existing.actors,
    };
    Movies { id: existing.id, title, description, genre, actors }
}

/// The first step of an update, given what the lookup of `id` found: the row to write,
/// or the reply when there is nothing to write (404 when no row has `id`, 500 when the
/// lookup failed).
pub fn update_plan(id: u128, body: &UpdateMovieSchema, found: Result<Option<Movies>, StoreError>) -> (r: Result<Movies, Reply>)
    ensures
        (found matches Ok(Some(m)) ==> (r matches Ok(w) && w@ == merged(m@, body@))),
        (found matches Ok(None)) ==> (r matches Err(reply) && is_not_found(reply, id)),
        found is Err ==> (r matches Err(reply) && is_storage_failure(reply, found->Err_0)),
{
    match found {
        Ok(Some(m)) => Ok(merge_update(m, body)),
        Ok(None) => Err(Reply { status: 404, body: Body::Fail { message: not_found_message(id) } }),
        Err(e) => Err(Reply { status: 500, body: Body::Error { message: error_message(&e) } }),
    }
}

/// The reply to the write of an update, given how many rows it changed: 200 for one or
/// more, 404 for none, 500 when the statement failed.
pub fn update_reply(id: u128, outcome: Result<u64, StoreError>) -> (r: Reply)
    ensures
        (outcome matches Ok(n) && n > 0) ==> r.status == 200 && r.body is Updated,
        (outcome matches Ok(n) && n == 0) ==> is_not_found(r, id),
        outcome is Err ==> is_storage_failure(r, outcome->Err_0),
{
    match outcome {
        Ok(n) => {
            if n == 0 {
                Reply { status: 404, body: Body::Fail { message: not_found_message(id) } }
            } else {
                Reply { status: 200, body: Body::Updated }
            }
        },
        Err(e) => Reply { status: 500, body: Body::Error { message: error_message(&e) } },
    }
}

/// The reply to a deletion, given how many rows it removed: 200 for one or more, 404 for
/// none, 500 when the statement failed.
pub fn delete_reply(id: u128, outcome: Result<u64, StoreError>) -> (r: Reply)
    ensures
        (outcome matches Ok(n) && n > 0) ==> r.status == 200 && r.body is Deleted,
        (outcome matches Ok(n) && n == 0) ==> is_not_found(r, id),
        outcome is Err ==> is_storage_failure(r, outcome->Err_0),
{
    match outcome {
        Ok(n) => {
            if n == 0 {
                Reply { status: 404, body: Body::Fail { message: not_found_message(id) } }
            } else {
                Reply { status: 200, body: Body::Deleted }
            }
        },
        Err(e) => Reply { status: 500, body: Body::Error { message: error_message(&e) } },
    }
}

/// The liveness probe: always 200, whatever the state of storage.
pub fn pingpong() -> (r: Reply)
    ensures
        r.status == 200 && r.body is Pong,
{
    Reply { status: 200, body: Body::Pong }
}

} // verus!
