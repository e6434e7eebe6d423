use vstd::prelude::*;
use crate::model::{opt_strings_view, strings_view};

verus! {

/// Query parameters of a listing: a 1-based page and a page size, both optional.
pub struct FilterOptions {
    pub page: Option<usize>,
    pub limit: Option<usize>,
}

/// A path parameter that names one row.
pub struct ParamOptions {
    pub id: String,
}

/// The body of a creation request: every field is required.
pub struct CreateMovieSchema {
    pub title: String,
    pub description: String,
    pub genre: Vec<String>,
    pub actors: Vec<String>,
}

/// The abstract content of a creation request.
pub struct CreateView {
    pub title: Seq<char>,
    pub description: Seq<char>,
    pub genre: Seq<Seq<char>>,
    pub actors: Seq<Seq<char>>,
}

impl View for CreateMovieSchema {
    type V = CreateView;

    open spec fn view(&self) -> CreateView {
        CreateView {
            title: self.title@,
            description: self.description@,
            genre: strings_view(self.genre@),
            actors: strings_view(self.actors@),
        }
    }
}

/// The body of an update request: an absent field keeps the stored value.
pub struct UpdateMovieSchema {
    pub title: Option<String>,
    pub description: Option<String>,
    pub genre: Option<Vec<String>>,
    pub actors: Option<Vec<String>>,
}

/// The abstract content of an update request.
pub struct UpdateView {
    pub title: Option<Seq<char>>,
    pub description: Option<Seq<char>>,
    pub genre: Option<Seq<Seq<char>>>,
    pub actors: Option<Seq<Seq<char>>>,
}

/// What an optional string holds.
pub open spec fn opt_text_view(o: Option<String>) -> Option<Seq<char>> {
    match o {
        Some(s) => Some(s@),
        None => None,
    }
}

impl View for UpdateMovieSchema {
    type V = UpdateView;

    open spec fn view(&self) -> UpdateView {
        UpdateView {
            title: opt_text_view(self.title),
            description: opt_text_view(self.description),
            genre: opt_strings_view(self.genre),
            actors: opt_strings_view(self.actors),
        }
    }
}

} // verus!
