//! The two handlers: boundary logic that turns one store operation into a
//! response. The transport hands them plain values (the path id, the
//! decoded payload or a malformed-payload signal) and carries their
//! responses back as HTTP statuses and bodies.

use vstd::prelude::*;

use crate::movie::Movie;
use crate::movie::MovieView;
use crate::store::MovieStore;
use crate::store::PutOutcome;
use crate::store::lookup;
use crate::store::put_result;
use crate::store::put_succeeds;

verus! {

/// What the get handler answers: the record found under the id, or a
/// not-found signal with no body.
pub enum GetResponse {
    Found(Movie),
    NotFound,
}

/// What the create handler answers: created, a conflict on an id already
/// taken, or a malformed-payload signal raised before the store is touched.
pub enum CreateResponse {
    Created,
    Conflict,
    MalformedInput,
}

/// The view of a get response: the record it carries, if any.
pub open spec fn get_response_view(r: GetResponse) -> Option<MovieView> {
    match r {
        GetResponse::Found(m) => Some(m@),
        GetResponse::NotFound => None,
    }
}

/// Get handler: looks the path id up and maps the outcome, found record to
/// a body, absence to not-found. Read-only: the store is never changed.
pub fn handle_get(store: &MovieStore, id: &String) -> (r: GetResponse)
    requires
        store.wf(),
    ensures
        get_response_view(r) == lookup(store@, id@),
{
    match store.get(id) {
        Some(m) => GetResponse::Found(m),
        None => GetResponse::NotFound,
    }
}

/// Create handler on a well-formed payload: one atomic check-and-insert,
/// `Created` exactly on success, `Conflict` with the store untouched when
/// the id is already taken.
pub fn handle_create(store: &mut MovieStore, movie: Movie) -> (r: CreateResponse)
    requires
        old(store).wf(),
    ensures
        final(store).wf(),
        final(store)@ == put_result(old(store)@, movie@),
        r is Created <==> put_succeeds(old(store)@, movie@),
        r is Created || r is Conflict,
        r is Conflict ==> *final(store) == *old(store),
{
    match store.put_if_absent(movie) {
        PutOutcome::Inserted => CreateResponse::Created,
        PutOutcome::AlreadyExists => CreateResponse::Conflict,
    }
}

/// Create handler as the transport sees it: `None` stands for a payload
/// that did not decode into the record shape and is answered as malformed
/// input before the store is ever touched; a well-formed payload goes
/// through the atomic check-and-insert.
pub fn handle_create_request(store: &mut MovieStore, payload: Option<Movie>) -> (r: CreateResponse)
    requires
        old(store).wf(),
    ensures
        final(store).wf(),
        payload is None ==> r is MalformedInput && *final(store) == *old(store),
        payload matches Some(m) ==> {
            &&& final(store)@ == put_result(old(store)@, m@)
            &&& (r is Created <==> put_succeeds(old(store)@, m@))
            &&& (r is Created || r is Conflict)
            &&& (r is Conflict ==> *final(store) == *old(store))
        },
{
    match payload {
        Some(movie) => handle_create(store, movie),
        None => CreateResponse::MalformedInput,
    }
}

/// The HTTP status a get response is carried under: 200 for a found
/// record, 404 for absence.
pub fn get_status(r: &GetResponse) -> (code: u16)
    ensures
        code == (if r is Found {
            200u16
        } else {
            404u16
        }),
{
    match r {
        GetResponse::Found(_) => 200,
        GetResponse::NotFound => 404,
    }
}

/// The HTTP status a create response is carried under: 201 created, 409
/// conflict, 422 for a payload that did not match the record shape.
pub fn create_status(r: &CreateResponse) -> (code: u16)
    ensures
        code == (if r is Created {
            201u16
        } else if r is Conflict {
            409u16
        } else {
            422u16
        }),
{
    match r {
        CreateResponse::Created => 201,
        CreateResponse::Conflict => 409,
        CreateResponse::MalformedInput => 422,
    }
}

} // verus!
