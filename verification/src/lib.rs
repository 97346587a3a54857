//! A client-side engine for a hypermedia-paginated REST API: link-header
//! parsing, response handling and bounded page traversal.

pub mod clients;
pub mod fetch;
pub mod link_laws;
pub mod links;
pub mod model;
pub mod paginator;
pub mod text;
pub mod traversal;
