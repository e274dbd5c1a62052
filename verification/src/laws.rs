//! The laws the store obeys, each proved once and for all over the
//! store's mathematical model: a mapping from id to record view, read by
//! `lookup` and written by the check-and-insert `put_result`.

use vstd::prelude::*;

use crate::movie::MovieView;
use crate::store::lookup;
use crate::store::put_result;
use crate::store::put_succeeds;

verus! {

/// Round trip: creating a record under a fresh id succeeds, and a lookup
/// of that id afterwards yields the record, equal in every field.
pub proof fn lemma_round_trip(s: Map<Seq<char>, MovieView>, m: MovieView)
    requires
        put_succeeds(s, m),
    ensures
        lookup(put_result(s, m), m.id) == Some(m),
{
}

/// No overwrite: a check-and-insert under an id already taken fails, the
/// mapping is left untouched, and the originally stored record is still
/// what a lookup of that id yields.
pub proof fn lemma_no_overwrite(s: Map<Seq<char>, MovieView>, m: MovieView)
    requires
        s.contains_key(m.id),
    ensures
        !put_succeeds(s, m),
        put_result(s, m) == s,
        lookup(put_result(s, m), m.id) == lookup(s, m.id),
{
}

/// Idempotent reads: a lookup has no side effect, so any two results read
/// from the same mapping under the same id are identical.
pub proof fn lemma_reads_idempotent(
    s: Map<Seq<char>, MovieView>,
    k: Seq<char>,
    r1: Option<MovieView>,
    r2: Option<MovieView>,
)
    requires
        r1 == lookup(s, k),
        r2 == lookup(s, k),
    ensures
        r1 == r2,
{
}

/// The mapping after a serialized run of check-and-inserts, in order.
pub open spec fn run_puts(s: Map<Seq<char>, MovieView>, rs: Seq<MovieView>) -> Map<
    Seq<char>,
    MovieView,
>
    decreases rs.len(),
{
    if rs.len() == 0 {
        s
    } else {
        run_puts(put_result(s, rs.first()), rs.drop_first())
    }
}

/// How many check-and-inserts of a serialized run succeed.
pub open spec fn count_inserted(s: Map<Seq<char>, MovieView>, rs: Seq<MovieView>) -> nat
    decreases rs.len(),
{
    if rs.len() == 0 {
        0
    } else {
        (if put_succeeds(s, rs.first()) {
            1nat
        } else {
            0nat
        }) + count_inserted(put_result(s, rs.first()), rs.drop_first())
    }
}

/// Absence: an id that no run of check-and-inserts ever carries stays
/// absent, so a lookup of an id never inserted yields nothing.
pub proof fn lemma_absence(s: Map<Seq<char>, MovieView>, rs: Seq<MovieView>, k: Seq<char>)
    requires
        !s.contains_key(k),
        forall|i: int| 0 <= i < rs.len() ==> (#[trigger] rs[i].id) != k,
    ensures
        lookup(run_puts(s, rs), k) is None,
    decreases rs.len(),
{
    if rs.len() > 0 {
        assert(rs[0].id != k);
        assert forall|i: int| 0 <= i < rs.drop_first().len() implies (#[trigger] rs.drop_first()[
        i].id) != k by {
            assert(rs.drop_first()[i] == rs[i + 1]);
        }
        lemma_absence(put_result(s, rs.first()), rs.drop_first(), k);
    }
}

/// Once an id is taken, every later check-and-insert of that id fails and
/// leaves the mapping unchanged.
pub proof fn lemma_taken_id_stays(s: Map<Seq<char>, MovieView>, rs: Seq<MovieView>, k: Seq<char>)
    requires
        s.contains_key(k),
        forall|i: int| 0 <= i < rs.len() ==> (#[trigger] rs[i].id) == k,
    ensures
        count_inserted(s, rs) == 0,
        run_puts(s, rs) == s,
    decreases rs.len(),
{
    if rs.len() > 0 {
        assert(rs[0].id == k);
        assert forall|i: int| 0 <= i < rs.drop_first().len() implies (#[trigger] rs.drop_first()[
        i].id) == k by {
            assert(rs.drop_first()[i] == rs[i + 1]);
        }
        lemma_taken_id_stays(put_result(s, rs.first()), rs.drop_first(), k);
    }
}

/// Insert race, serialized: however many concurrent creates carry the same
/// fresh id, once the store has serialized them exactly the first succeeds,
/// every other one reports a conflict, and the mapping ends with exactly
/// the first record under that id.
pub proof fn lemma_insert_race(s: Map<Seq<char>, MovieView>, rs: Seq<MovieView>, k: Seq<char>)
    requires
        !s.contains_key(k),
        rs.len() > 0,
        forall|i: int| 0 <= i < rs.len() ==> (#[trigger] rs[i].id) == k,
    ensures
        count_inserted(s, rs) == 1,
        run_puts(s, rs) == s.insert(k, rs.first()),
        lookup(run_puts(s, rs), k) == Some(rs.first()),
{
    assert(rs[0].id == k);
    assert forall|i: int| 0 <= i < rs.drop_first().len() implies (#[trigger] rs.drop_first()[
    i].id) == k by {
        assert(rs.drop_first()[i] == rs[i + 1]);
    }
    lemma_taken_id_stays(put_result(s, rs.first()), rs.drop_first(), k);
}

} // verus!
