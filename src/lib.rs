//! A read-only HTTP front end over a document database: requests are routed to
//! a collection, their query strings are translated into find options, and the
//! documents found are rendered as one JSON array.

pub mod numbers;
pub mod params;
pub mod render;
pub mod route;
pub mod translate;
