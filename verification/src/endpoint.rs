//! Requests to the API and what comes back: query options, the envelope of a
//! listing, and the errors of both.

pub mod all;
pub mod entries;
pub mod key;
pub mod list;
pub mod lol;
pub mod options;
pub mod request;
pub mod rl;
pub mod round_trip;
pub mod web;

pub use list::{ListHeaders, ListResponse, PageLinks};
pub use options::{CollectionOptions, EndpointError};
pub use request::{Endpoint, PaginatedEndpoint, BASE_URL};
