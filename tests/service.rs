use movie_api::handlers::{pingpong, Body, Reply};
use movie_api::model::Movies;
use movie_api::schema::{CreateMovieSchema, FilterOptions, UpdateMovieSchema};
use movie_api::service::{add_new_movie, delete_movie, get_all_movies, update_movie};
use movie_api::table::MovieTable;

fn strings(items: &[&str]) -> Vec<String> {
    items.iter().map(|s| s.to_string()).collect()
}

fn create(title: &str) -> CreateMovieSchema {
    CreateMovieSchema {
        title: title.to_string(),
        description: format!("about {}", title),
        genre: strings(&["drama"]),
        actors: strings(&["A. Actor", "B. Actor"]),
    }
}

fn list(table: &MovieTable, page: Option<usize>, limit: Option<usize>) -> Vec<Movies> {
    let r = get_all_movies(table, &FilterOptions { page, limit });
    assert_eq!(r.status, 200);
    match r.body {
        Body::MovieList { movies } => movies,
        _ => panic!("expected a movie list"),
    }
}

fn fail_message(r: &Reply) -> String {
    match &r.body {
        Body::Fail { message } => message.clone(),
        _ => panic!("expected a failure body"),
    }
}

fn no_update() -> UpdateMovieSchema {
    UpdateMovieSchema { title: None, description: None, genre: None, actors: None }
}

#[test]
fn created_movie_is_listed() {
    let mut table = MovieTable::new();
    let r = add_new_movie(&mut table, &create("Alien"));
    assert_eq!(r.status, 200);
    assert!(matches!(r.body, Body::Created));
    let r = add_new_movie(&mut table, &create("Heat"));
    assert_eq!(r.status, 200);
    let movies = list(&table, None, None);
    assert_eq!(movies.len(), 2);
    let heat = movies.iter().find(|m| m.title == "Heat").unwrap();
    assert_eq!(heat.description, "about Heat");
    assert_eq!(heat.genre, Some(strings(&["drama"])));
    assert_eq!(heat.actors, Some(strings(&["A. Actor", "B. Actor"])));
    assert_ne!(heat.id, movies[0].id);
}

#[test]
fn duplicate_title_is_rejected() {
    let mut table = MovieTable::new();
    assert_eq!(add_new_movie(&mut table, &create("Alien")).status, 200);
    let r = add_new_movie(&mut table, &create("Alien"));
    assert_eq!(r.status, 400);
    assert_eq!(fail_message(&r), "Movie with that title already exists");
    assert_eq!(table.len(), 1);
}

#[test]
fn update_of_missing_id_is_not_found() {
    let mut table = MovieTable::new();
    add_new_movie(&mut table, &create("Alien"));
    let before = table.row(0);
    let body = UpdateMovieSchema { title: Some("Aliens".to_string()), ..no_update() };
    let r = update_movie(&mut table, 42, &body);
    assert_eq!(r.status, 404);
    assert_eq!(
        fail_message(&r),
        "Movie with ID: 00000000-0000-0000-0000-00000000002a not found"
    );
    assert_eq!(table.len(), 1);
    assert_eq!(table.row(0).title, before.title);
}

#[test]
fn partial_update_changes_only_the_target() {
    let mut table = MovieTable::new();
    for t in ["One", "Two", "Three"] {
        add_new_movie(&mut table, &create(t));
    }
    let target = table.row(1);
    let body = UpdateMovieSchema { title: Some("Deux".to_string()), ..no_update() };
    let r = update_movie(&mut table, target.id, &body);
    assert_eq!(r.status, 200);
    assert!(matches!(r.body, Body::Updated));
    let updated = table.row(1);
    assert_eq!(updated.id, target.id);
    assert_eq!(updated.title, "Deux");
    assert_eq!(updated.description, "about Two");
    assert_eq!(updated.genre, target.genre);
    assert_eq!(updated.actors, target.actors);
    assert_eq!(table.row(0).title, "One");
    assert_eq!(table.row(2).title, "Three");
}

#[test]
fn update_to_a_taken_title_fails() {
    let mut table = MovieTable::new();
    add_new_movie(&mut table, &create("One"));
    add_new_movie(&mut table, &create("Two"));
    let id = table.row(1).id;
    let body = UpdateMovieSchema { title: Some("One".to_string()), ..no_update() };
    let r = update_movie(&mut table, id, &body);
    assert_eq!(r.status, 500);
    assert!(matches!(r.body, Body::Error { .. }));
    assert_eq!(table.row(1).title, "Two");
}

#[test]
fn delete_then_delete_again() {
    let mut table = MovieTable::new();
    for t in ["One", "Two", "Three"] {
        add_new_movie(&mut table, &create(t));
    }
    let id = table.row(1).id;
    let r = delete_movie(&mut table, id);
    assert_eq!(r.status, 200);
    assert!(matches!(r.body, Body::Deleted));
    assert_eq!(table.len(), 2);
    assert_eq!(table.row(0).title, "One");
    assert_eq!(table.row(1).title, "Three");
    let r = delete_movie(&mut table, id);
    assert_eq!(r.status, 404);
    assert_eq!(table.len(), 2);
}

#[test]
fn pages_of_two_over_five_rows() {
    let mut table = MovieTable::new();
    for t in ["A", "B", "C", "D", "E"] {
        add_new_movie(&mut table, &create(t));
    }
    let p1 = list(&table, Some(1), Some(2));
    let p2 = list(&table, Some(2), Some(2));
    let p3 = list(&table, Some(3), Some(2));
    let titles = |v: &Vec<Movies>| v.iter().map(|m| m.title.clone()).collect::<Vec<_>>();
    assert_eq!(titles(&p1), vec!["A", "B"]);
    assert_eq!(titles(&p2), vec!["C", "D"]);
    assert_eq!(titles(&p3), vec!["E"]);
    assert!(p1[0].id < p1[1].id && p1[1].id < p2[0].id && p2[1].id < p3[0].id);
}

#[test]
fn listing_defaults_and_bounds() {
    let mut table = MovieTable::new();
    for i in 0..12 {
        add_new_movie(&mut table, &create(&format!("Film {}", i)));
    }
    assert_eq!(list(&table, None, None).len(), 11);
    assert_eq!(list(&table, Some(2), None).len(), 1);
    assert_eq!(list(&table, Some(9), Some(5)).len(), 0);
    assert_eq!(list(&MovieTable::new(), None, None).len(), 0);
    let r = get_all_movies(&table, &FilterOptions { page: Some(0), limit: Some(2) });
    assert_eq!(r.status, 400);
    assert_eq!(fail_message(&r), "page must be at least 1");
}

#[test]
fn ping_always_answers() {
    let r = pingpong();
    assert_eq!(r.status, 200);
    assert!(matches!(r.body, Body::Pong));
}

#[test]
fn many_creations_keep_every_row() {
    let mut table = MovieTable::new();
    let n: usize = 50;
    for i in 0..n {
        assert_eq!(add_new_movie(&mut table, &create(&format!("Film {}", i))).status, 200);
    }
    assert_eq!(table.len(), n);
    for i in 1..n {
        assert!(table.row(i - 1).id < table.row(i).id);
    }
}

#[test]
fn update_keeps_absent_lists_absent() {
    let mut table = MovieTable::new();
    add_new_movie(&mut table, &create("One"));
    let id = table.row(0).id;
    let body = UpdateMovieSchema {
        description: Some("new".to_string()),
        genre: Some(strings(&["comedy", "crime"])),
        ..no_update()
    };
    assert_eq!(update_movie(&mut table, id, &body).status, 200);
    let row = table.row(0);
    assert_eq!(row.title, "One");
    assert_eq!(row.description, "new");
    assert_eq!(row.genre, Some(strings(&["comedy", "crime"])));
    assert_eq!(row.actors, Some(strings(&["A. Actor", "B. Actor"])));
}
