//! A small task service: the task record, its request shapes, an in-memory
//! task repository, and the mapping from outcomes to HTTP responses.
pub mod ident;
pub mod model;
pub mod schema;
pub mod store;
pub mod response;
pub mod handlers;
