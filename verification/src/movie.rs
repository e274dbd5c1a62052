//! The record held by the store: a flat value object identified by its
//! string `id`.

use vstd::prelude::*;

verus! {

/// Mathematical view of a [`Movie`]: every field as a specification value.
pub ghost struct MovieView {
    pub id: Seq<char>,
    pub name: Seq<char>,
    pub year: u16,
    pub was_good: bool,
}

/// A stored record: `id` is the key under which it lives in the store;
/// `name`, `year` and `was_good` are plain domain attributes.
#[derive(Debug)]
pub struct Movie {
    pub id: String,
    pub name: String,
    pub year: u16,
    pub was_good: bool,
}

impl View for Movie {
    type V = MovieView;

    open spec fn view(&self) -> MovieView {
        MovieView { id: self.id@, name: self.name@, year: self.year, was_good: self.was_good }
    }
}

impl Clone for Movie {
    fn clone(&self) -> (r: Self)
        ensures
            r@ == self@,
    {
        Movie { id: self.id.clone(), name: self.name.clone(), year: self.year, was_good: self.was_good }
    }
}

impl PartialEq for Movie {
    fn eq(&self, o: &Movie) -> (r: bool) {
        self.id == o.id && self.name == o.name && self.year == o.year && self.was_good
            == o.was_good
    }
}

impl vstd::std_specs::cmp::PartialEqSpecImpl for Movie {
    open spec fn obeys_eq_spec() -> bool {
        true
    }

    open spec fn eq_spec(&self, o: &Movie) -> bool {
        self@ == o@
    }
}

impl Default for Movie {
    /// The all-empty record: empty strings, year zero, flag false.
    fn default() -> (r: Movie)
        ensures
            r@.id.len() == 0,
            r@.name.len() == 0,
            r@.year == 0,
            !r@.was_good,
    {
        Movie { id: String::new(), name: String::new(), year: 0, was_good: false }
    }
}

/// The view of an optional record: the view of the record, if one is there.
pub open spec fn option_view(r: Option<Movie>) -> Option<MovieView> {
    match r {
        Some(m) => Some(m@),
        None => None,
    }
}

} // verus!
