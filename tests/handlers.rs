use movie_api::handlers::{
    create_reply, delete_reply, list_reply, merge_update, page_window, update_plan, update_reply,
    window_error_reply, Body, Window, WindowError,
};
use movie_api::model::{not_found_message, Movies};
use movie_api::schema::{FilterOptions, UpdateMovieSchema};
use movie_api::table::StoreError;

fn other(detail: &str) -> StoreError {
    StoreError::Other { detail: detail.to_string() }
}

fn message(body: &Body) -> String {
    match body {
        Body::Fail { message } | Body::Error { message } => message.clone(),
        _ => panic!("expected a message"),
    }
}

fn window(page: Option<usize>, limit: Option<usize>) -> Result<Window, WindowError> {
    page_window(&FilterOptions { page, limit })
}

#[test]
fn window_defaults_to_first_page_of_eleven() {
    let w = window(None, None).ok().unwrap();
    assert_eq!((w.offset, w.limit), (0, 11));
    let w = window(Some(3), Some(4)).ok().unwrap();
    assert_eq!((w.offset, w.limit), (8, 4));
    let w = window(Some(2), None).ok().unwrap();
    assert_eq!((w.offset, w.limit), (11, 11));
}

#[test]
fn window_rejects_page_zero_and_overflow() {
    assert!(matches!(window(Some(0), None), Err(WindowError::PageZero)));
    assert!(matches!(window(Some(usize::MAX), Some(2)), Err(WindowError::TooLarge)));
    assert!(matches!(window(Some(1), Some(usize::MAX)), Err(WindowError::TooLarge)));
    let r = window_error_reply(WindowError::TooLarge);
    assert_eq!(r.status, 400);
    assert_eq!(message(&r.body), "page or limit is too large");
}

#[test]
fn list_failure_is_500() {
    let r = list_reply(Err(other("connection refused")));
    assert_eq!(r.status, 500);
    assert_eq!(message(&r.body), "Couldn't retrieve all movies");
    let r = list_reply(Ok(Vec::new()));
    assert_eq!(r.status, 200);
    assert!(matches!(r.body, Body::MovieList { movies } if movies.is_empty()));
}

#[test]
fn create_outcomes() {
    assert_eq!(create_reply(Ok(7)).status, 200);
    let r = create_reply(Err(StoreError::UniqueViolation { detail: "dup".to_string() }));
    assert_eq!(r.status, 400);
    assert_eq!(message(&r.body), "Movie with that title already exists");
    let r = create_reply(Err(other("disk full")));
    assert_eq!(r.status, 500);
    assert_eq!(message(&r.body), "disk full");
}

#[test]
fn update_and_delete_outcomes() {
    let id: u128 = 0xa1a2a3a4b1b2c1c2d1d2d3d4d5d6d7d8;
    let missing = "Movie with ID: a1a2a3a4-b1b2-c1c2-d1d2-d3d4d5d6d7d8 not found";
    let r = update_reply(id, Ok(0));
    assert_eq!(r.status, 404);
    assert_eq!(message(&r.body), missing);
    assert!(matches!(update_reply(id, Ok(1)).body, Body::Updated));
    let r = update_reply(id, Err(other("timeout")));
    assert_eq!(r.status, 500);
    assert_eq!(message(&r.body), "Error: timeout");
    let r = delete_reply(id, Ok(0));
    assert_eq!(r.status, 404);
    assert_eq!(message(&r.body), missing);
    assert!(matches!(delete_reply(id, Ok(1)).body, Body::Deleted));
    let r = delete_reply(id, Err(other("timeout")));
    assert_eq!(r.status, 500);
    assert_eq!(message(&r.body), "Error: timeout");
}

#[test]
fn not_found_message_spells_the_uuid() {
    assert_eq!(
        not_found_message(1),
        "Movie with ID: 00000000-0000-0000-0000-000000000001 not found"
    );
    assert_eq!(
        not_found_message(u128::MAX),
        "Movie with ID: ffffffff-ffff-ffff-ffff-ffffffffffff not found"
    );
}

#[test]
fn update_plan_merges_supplied_fields() {
    let existing = Movies {
        id: 5,
        title: "Old".to_string(),
        description: "desc".to_string(),
        genre: None,
        actors: Some(vec!["X".to_string()]),
    };
    let body = UpdateMovieSchema {
        title: Some("New".to_string()),
        description: None,
        genre: None,
        actors: None,
    };
    let row = merge_update(existing, &body);
    assert_eq!(row.id, 5);
    assert_eq!(row.title, "New");
    assert_eq!(row.description, "desc");
    assert_eq!(row.genre, None);
    assert_eq!(row.actors, Some(vec!["X".to_string()]));
    let r = update_plan(5, &body, Ok(None));
    assert!(matches!(r, Err(ref reply) if reply.status == 404));
    let r = update_plan(5, &body, Err(other("gone")));
    assert!(matches!(r, Err(ref reply) if reply.status == 500));
}
