//! The record store: a shared mapping from id to record with two
//! operations, a read-only lookup and an atomic check-and-insert.
//!
//! The store is modelled in specifications as a `Map<Seq<char>, MovieView>`
//! from id to record view; the executable representation is a vector of
//! records with pairwise distinct ids.

use vstd::prelude::*;

use crate::movie::Movie;
use crate::movie::MovieView;
use crate::movie::option_view;

verus! {

/// What a check-and-insert reports: the record was stored, or a record
/// with the same id was already present and nothing changed.
pub enum PutOutcome {
    Inserted,
    AlreadyExists,
}

/// What a lookup of `k` in the mapping `s` yields: the record stored
/// under `k`, if any.
pub open spec fn lookup(s: Map<Seq<char>, MovieView>, k: Seq<char>) -> Option<MovieView> {
    if s.contains_key(k) {
        Some(s[k])
    } else {
        None
    }
}

/// Whether a check-and-insert of `m` into the mapping `s` succeeds:
/// exactly when no record is stored under `m.id` yet.
pub open spec fn put_succeeds(s: Map<Seq<char>, MovieView>, m: MovieView) -> bool {
    !s.contains_key(m.id)
}

/// The mapping after a check-and-insert of `m` into `s`: one new entry
/// on success, the mapping untouched on a conflict.
pub open spec fn put_result(s: Map<Seq<char>, MovieView>, m: MovieView) -> Map<
    Seq<char>,
    MovieView,
> {
    if put_succeeds(s, m) {
        s.insert(m.id, m)
    } else {
        s
    }
}

/// The mapping that a sequence of records denotes: each record under its
/// id, a later record shadowing an earlier one with the same id (the store
/// never holds two such records).
spec fn map_of(s: Seq<MovieView>) -> Map<Seq<char>, MovieView>
    decreases s.len(),
{
    if s.len() == 0 {
        Map::empty()
    } else {
        map_of(s.drop_last()).insert(s.last().id, s.last())
    }
}

/// An id is in the denoted mapping exactly when some record of the
/// sequence carries it.
proof fn lemma_map_of_contains(s: Seq<MovieView>, k: Seq<char>)
    ensures
        map_of(s).contains_key(k) <==> exists|i: int| 0 <= i < s.len() && s[i].id == k,
    decreases s.len(),
{
    if s.len() > 0 {
        lemma_map_of_contains(s.drop_last(), k);
        if s.last().id == k {
            assert(s[s.len() - 1].id == k);
        } else if map_of(s).contains_key(k) {
            let i = choose|i: int| 0 <= i < s.drop_last().len() && s.drop_last()[i].id == k;
            assert(s[i].id == k);
        } else if exists|i: int| 0 <= i < s.len() && s[i].id == k {
            let i = choose|i: int| 0 <= i < s.len() && s[i].id == k;
            assert(s.drop_last()[i].id == k);
        }
    }
}

/// A record that no later record shadows is what the denoted mapping
/// holds under its id.
proof fn lemma_map_of_index(s: Seq<MovieView>, i: int)
    requires
        0 <= i < s.len(),
        forall|j: int| i < j < s.len() ==> (#[trigger] s[j].id) != s[i].id,
    ensures
        map_of(s).contains_key(s[i].id),
        map_of(s)[s[i].id] == s[i],
    decreases s.len(),
{
    if i == s.len() - 1 {
    } else {
        lemma_map_of_index(s.drop_last(), i);
        assert(s.drop_last()[i] == s[i]);
    }
}

/// Every entry of a denoted mapping holds a record whose id is the key
/// it sits under.
proof fn lemma_map_of_own_id(s: Seq<MovieView>, k: Seq<char>)
    ensures
        map_of(s).contains_key(k) ==> map_of(s)[k].id == k,
    decreases s.len(),
{
    if s.len() > 0 {
        lemma_map_of_own_id(s.drop_last(), k);
    }
}

/// The in-memory record store.
pub struct MovieStore {
    movies: Vec<Movie>,
}

impl View for MovieStore {
    type V = Map<Seq<char>, MovieView>;

    closed spec fn view(&self) -> Map<Seq<char>, MovieView> {
        map_of(self.movies@.map_values(|m: Movie| m@))
    }
}

impl MovieStore {
    /// Well-formedness: no two held records share an id, so each stored
    /// record is the one its id maps to.
    pub closed spec fn wf(&self) -> bool {
        forall|i: int, j: int|
            0 <= i < j < self.movies@.len() ==> (#[trigger] self.movies@[i]@.id) != (
            #[trigger] self.movies@[j]@.id)
    }

    /// A record, once stored, sits under the key that equals its own id
    /// field; no renaming operation exists.
    pub proof fn lemma_stored_under_own_id(&self, k: Seq<char>)
        ensures
            self@.contains_key(k) ==> self@[k].id == k,
    {
        lemma_map_of_own_id(self.movies@.map_values(|m: Movie| m@), k);
    }

    /// A store starts empty.
    pub fn new() -> (r: MovieStore)
        ensures
            r.wf(),
            r@ == Map::<Seq<char>, MovieView>::empty(),
    {
        let r = MovieStore { movies: Vec::new() };
        proof {
            assert(r.movies@.map_values(|m: Movie| m@) =~= Seq::<MovieView>::empty());
        }
        r
    }

    /// Looks `id` up. Read-only; returns the record by value, so the
    /// caller cannot reach store-internal state. `Some` exactly when the
    /// id is present, and then the copy equals the stored record.
    pub fn get(&self, id: &String) -> (r: Option<Movie>)
        requires
            self.wf(),
        ensures
            option_view(r) == lookup(self@, id@),
    {
        let ghost views = self.movies@.map_values(|m: Movie| m@);
        let mut i: usize = 0;
        while i < self.movies.len()
            invariant
                i <= self.movies.len(),
                views == self.movies@.map_values(|m: Movie| m@),
                self.wf(),
                forall|j: int| 0 <= j < i ==> (#[trigger] views[j].id) != id@,
            decreases self.movies.len() - i,
        {
            if self.movies[i].id == *id {
                proof {
                    lemma_map_of_index(views, i as int);
                }
                return Some(self.movies[i].clone());
            }
            i += 1;
        }
        proof {
            lemma_map_of_contains(views, id@);
        }
        None
    }

    /// The atomic check-and-insert: stores `movie` under its id unless a
    /// record with that id is already held. On `Inserted` the mapping
    /// gains exactly that one entry; on `AlreadyExists` the store is
    /// unchanged, the present record never overwritten.
    pub fn put_if_absent(&mut self, movie: Movie) -> (r: PutOutcome)
        requires
            old(self).wf(),
        ensures
            final(self).wf(),
            final(self)@ == put_result(old(self)@, movie@),
            r is Inserted <==> put_succeeds(old(self)@, movie@),
            r is AlreadyExists ==> *final(self) == *old(self),
    {
        let ghost views = self.movies@.map_values(|m: Movie| m@);
        let mut i: usize = 0;
        while i < self.movies.len()
            invariant
                i <= self.movies.len(),
                views == self.movies@.map_values(|m: Movie| m@),
                self == old(self),
                self.wf(),
                forall|j: int| 0 <= j < i ==> (#[trigger] views[j].id) != movie@.id,
            decreases self.movies.len() - i,
        {
            if self.movies[i].id == movie.id {
                proof {
                    assert(views[i as int].id == movie@.id);
                    lemma_map_of_contains(views, movie@.id);
                }
                return PutOutcome::AlreadyExists;
            }
            i += 1;
        }
        proof {
            lemma_map_of_contains(views, movie@.id);
        }
        let ghost mv = movie@;
        self.movies.push(movie);
        proof {
            let ms = self.movies@;
            let views2 = ms.map_values(|m: Movie| m@);
            assert(views2.drop_last() =~= views);
            assert(views2.last() == mv);
            assert(self@ == map_of(views).insert(mv.id, mv));
            assert forall|a: int, b: int| 0 <= a < b < ms.len() implies (ms[a]@.id) != (
            ms[b]@.id) by {
                assert(ms[a] == old(self).movies@[a]);
                assert(views[a] == ms[a]@);
                if b < ms.len() - 1 {
                    assert(ms[b] == old(self).movies@[b]);
                } else {
                    assert(ms[b]@ == mv);
                }
            }
        }
        PutOutcome::Inserted
    }
}

} // verus!
