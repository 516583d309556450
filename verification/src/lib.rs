//! Typed client library for the PandaScore esports statistics API.
//!
//! The library builds the URLs of requests, reads the headers of listings,
//! and turns what the API answers into models. It does no I/O: sending a
//! request and receiving the answer is left to the caller.
//!
//! - [`endpoint`] holds the requests, their query options and the envelope
//!   of a listing.
//! - [`model`] holds the models, among them the winner of an event, which
//!   the API writes in three shapes, and the bracket of a tournament.
//! - [`json`], [`decimal`] and [`text`] hold what the two are made of.

pub mod decimal;
pub mod endpoint;
pub mod json;
pub mod model;
pub mod text;
