//! # HTTP Request
//!
//! The parts of an incoming request that the framework computes on: the
//! request head (route, method, headers, body), the HTTP/1.1 parsing rules
//! that produce it, and the variables a request carries.

mod http_parse_error;
mod http_parser_v1;
mod http_request_meta;
mod parsers;
mod variables;

pub use http_parse_error::{ExIoError, HttpParseError};
pub use http_parser_v1::{
    BodyFraming,
    ChunkAction,
    HttpParserV1,
    chunk_well_formed,
    framing,
    header_line,
    hex_size_spec,
    lemma_header_split_at_first_colon,
    route_meta,
    size_text,
};
pub use http_request_meta::{HeaderMap, HttpRequestMeta, lemma_route_split_rejoins};
pub use parsers::Parsers;
pub use variables::{ConvertTypeName, ConvertValue, VariableError, Variables};
