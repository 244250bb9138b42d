//! # Project Hail Mary
//!
//! A web framework core: a trie-based router with method-separated routes and
//! variable segments, HTTP/1.1 request-head parsing, a response builder with
//! wire serialisation, multipart form-data extraction, and the data model of
//! the API-collection document the framework can emit.

pub mod text;
pub mod web;

pub use web::HttpMethod;
pub mod str_map;
pub mod router;

pub use router::{Node, Router, RouterError};
pub mod app;
pub mod postman;
