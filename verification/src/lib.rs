//! An in-memory key-value record service: movies stored under string ids,
//! created with an atomic check-and-insert and retrieved by id.

pub mod handlers;
pub mod laws;
pub mod movie;
pub mod store;

pub use handlers::CreateResponse;
pub use handlers::GetResponse;
pub use movie::Movie;
pub use movie::MovieView;
pub use store::MovieStore;
pub use store::PutOutcome;
