use movie_store::Movie;
use movie_store::MovieStore;
use movie_store::PutOutcome;

fn movie(id: &str, name: &str, year: u16, was_good: bool) -> Movie {
    Movie { id: id.to_string(), name: name.to_string(), year, was_good }
}

#[test]
fn round_trip_fresh_id() {
    let mut store = MovieStore::new();
    let posted = movie("m1", "Heat", 1995, true);
    let outcome = store.put_if_absent(posted.clone());
    assert!(matches!(outcome, PutOutcome::Inserted));
    let got = store.get(&"m1".to_string()).expect("stored record must be retrievable");
    assert_eq!(got, posted);
}

#[test]
fn no_overwrite_on_taken_id() {
    let mut store = MovieStore::new();
    let original = movie("m1", "Heat", 1995, true);
    assert!(matches!(store.put_if_absent(original.clone()), PutOutcome::Inserted));
    let rival = movie("m1", "Heat II", 2005, false);
    let outcome = store.put_if_absent(rival);
    assert!(matches!(outcome, PutOutcome::AlreadyExists));
    let got = store.get(&"m1".to_string()).expect("original record must survive a conflict");
    assert_eq!(got, original);
}

#[test]
fn absent_id_yields_none() {
    let mut store = MovieStore::new();
    assert!(store.get(&"m1".to_string()).is_none());
    store.put_if_absent(movie("m1", "Heat", 1995, true));
    assert!(store.get(&"never-inserted".to_string()).is_none());
}

#[test]
fn repeated_reads_are_identical() {
    let mut store = MovieStore::new();
    store.put_if_absent(movie("m1", "Heat", 1995, true));
    let first = store.get(&"m1".to_string());
    let second = store.get(&"m1".to_string());
    assert_eq!(first, second);
    let first_absent = store.get(&"gone".to_string());
    let second_absent = store.get(&"gone".to_string());
    assert!(first_absent.is_none());
    assert_eq!(first_absent, second_absent);
}

#[test]
fn same_id_race_serialized_has_one_winner() {
    let mut store = MovieStore::new();
    let contenders = [
        movie("m1", "Heat", 1995, true),
        movie("m1", "Heat II", 2005, false),
        movie("m1", "Heat III", 2015, false),
        movie("m1", "Heat IV", 2025, true),
    ];
    let mut inserted: usize = 0;
    let mut conflicts: usize = 0;
    for contender in &contenders {
        match store.put_if_absent(contender.clone()) {
            PutOutcome::Inserted => inserted += 1,
            PutOutcome::AlreadyExists => conflicts += 1,
        }
    }
    assert_eq!(inserted, 1);
    assert_eq!(conflicts, contenders.len() - 1);
    let got = store.get(&"m1".to_string()).expect("exactly one record must be stored");
    assert_eq!(got, contenders[0]);
}

#[test]
fn distinct_ids_live_side_by_side() {
    let mut store = MovieStore::new();
    let a = movie("m1", "Heat", 1995, true);
    let b = movie("m2", "Ronin", 1998, true);
    assert!(matches!(store.put_if_absent(a.clone()), PutOutcome::Inserted));
    assert!(matches!(store.put_if_absent(b.clone()), PutOutcome::Inserted));
    assert_eq!(store.get(&"m1".to_string()).unwrap(), a);
    assert_eq!(store.get(&"m2".to_string()).unwrap(), b);
}

#[test]
fn empty_id_is_a_key_like_any_other() {
    let mut store = MovieStore::new();
    let blank = movie("", "Untitled", 0, false);
    assert!(matches!(store.put_if_absent(blank.clone()), PutOutcome::Inserted));
    assert_eq!(store.get(&String::new()).unwrap(), blank);
    assert!(matches!(
        store.put_if_absent(movie("", "Untitled II", 1, true)),
        PutOutcome::AlreadyExists
    ));
}

#[test]
fn year_bounds_round_trip() {
    let mut store = MovieStore::new();
    let oldest = movie("old", "Origins", 0, false);
    let newest = movie("new", "Futures", u16::MAX, true);
    store.put_if_absent(oldest.clone());
    store.put_if_absent(newest.clone());
    assert_eq!(store.get(&"old".to_string()).unwrap().year, 0);
    assert_eq!(store.get(&"new".to_string()).unwrap().year, u16::MAX);
    assert_eq!(store.get(&"old".to_string()).unwrap(), oldest);
    assert_eq!(store.get(&"new".to_string()).unwrap(), newest);
}

#[test]
fn clone_copies_every_field() {
    let m = movie("m1", "Heat", 1995, true);
    let c = m.clone();
    assert_eq!(c, m);
    assert_eq!(c.id, "m1");
    assert_eq!(c.name, "Heat");
    assert_eq!(c.year, 1995);
    assert!(c.was_good);
}

#[test]
fn equality_compares_every_field() {
    let m = movie("m1", "Heat", 1995, true);
    assert_eq!(m, movie("m1", "Heat", 1995, true));
    assert_ne!(m, movie("m2", "Heat", 1995, true));
    assert_ne!(m, movie("m1", "Ronin", 1995, true));
    assert_ne!(m, movie("m1", "Heat", 1996, true));
    assert_ne!(m, movie("m1", "Heat", 1995, false));
}

#[test]
fn default_record_is_all_empty() {
    let d = Movie::default();
    assert_eq!(d.id, "");
    assert_eq!(d.name, "");
    assert_eq!(d.year, 0);
    assert!(!d.was_good);
}
