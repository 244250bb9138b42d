//! # Web
//!
//! HTTP protocol layer for the crate: request and response types, status
//! codes, HTTP methods and the middleware control value.

pub mod file_body;
mod http_method;
mod middleware;
pub mod request;
pub mod request_error;
pub mod resolution;
pub mod standards;

pub use http_method::{HttpMethod, MethodName, method_of};
pub use middleware::{
    Middleware,
    Step,
    after_middleware,
    first_step,
    lemma_handler_runs_after_all_next,
    parse_failure_response,
    step_after,
};
pub mod response;

pub use response::{Response, http_code};
pub mod http_request;

pub use http_request::Parsers;
