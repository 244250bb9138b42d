//! # HTTP Code
//!
//! Enumerates every standard HTTP status code and provides conversions to
//! and from its numeric representation and its reason phrase.

use vstd::prelude::*;

use crate::text::{concat, copy_string, decimal, decimal_string};

verus! {

/// # Http Code
///
/// Describes a status that is served with an HTTP response.
///
/// Can be transformed into the code (`u32`) or the reason phrase such as `"OK"`,
/// and built from a `u32`: `HttpCode::from(200)` is `HttpCode::OK`, and a code
/// with no variant of its own becomes `HttpCode::Other`.
#[derive(Copy, Clone, Debug, PartialEq, Eq, Structural)]
pub enum HttpCode {
    /// # Continue
    ///
    /// The HTTP 100 Continue informational response status code indicates that the initial part of a request has been received and has not yet been rejected by the server.
    Continue,

    /// # Switching Protocols
    ///
    /// The HTTP 101 Switching Protocols response status code indicates the server is switching protocols as requested by the client.
    SwitchingProtocols,

    /// # Processing
    ///
    /// The HTTP 102 Processing status code indicates that the server has received and is processing the request, but no response is available yet.
    Processing,

    /// # Early Hints
    ///
    /// The HTTP 103 Early Hints status code is used to return some response headers before final HTTP message.
    EarlyHints,

    /// # OK
    ///
    /// The HTTP 200 OK success status code indicates that the request has succeeded.
    OK,

    /// # Created
    ///
    /// The HTTP 201 Created status code indicates that the request has succeeded and a new resource has been created.
    Created,

    /// # Accepted
    ///
    /// The HTTP 202 Accepted status code indicates that the request has been accepted for processing, but processing is not complete.
    Accepted,

    /// # Non-Authoritative Information
    ///
    /// The HTTP 203 status indicates that the returned metadata is not exactly the same as available from the origin server.
    NonAuthoritativeInformation,

    /// # No Content
    ///
    /// The HTTP 204 No Content status code indicates that the request succeeded but returns no content.
    NoContent,

    /// # Reset Content
    ///
    /// The HTTP 205 Reset Content status code indicates that the client should reset the document view.
    ResetContent,

    /// # Partial Content
    ///
    /// The HTTP 206 Partial Content status code indicates that the server is delivering only part of the resource.
    PartialContent,

    /// # Multi-Status
    ///
    /// The HTTP 207 Multi-Status status code conveys information about multiple resources.
    MultiStatus,

    /// # Already Reported
    ///
    /// The HTTP 208 Already Reported status code indicates that members of a DAV binding have already been enumerated.
    AlreadyReported,

    /// # IM Used
    ///
    /// The HTTP 226 IM Used status code indicates that the server has fulfilled a request for the resource.
    ImUsed,

    /// # Multiple Choices
    ///
    /// The HTTP 300 Multiple Choices status code indicates multiple options for the resource.
    MultipleChoices,

    /// # Moved Permanently
    ///
    /// The HTTP 301 Moved Permanently status code indicates that the resource has been permanently moved.
    MovedPermanently,

    /// # Found
    ///
    /// The HTTP 302 Found status code indicates that the resource resides temporarily under a different URI.
    Found,

    /// # See Other
    ///
    /// The HTTP 303 See Other status code indicates that the response can be found under another URI.
    SeeOther,

    /// # Not Modified
    ///
    /// The HTTP 304 Not Modified status code indicates that there is no need to retransmit the requested resources.
    NotModified,

    /// # Use Proxy
    ///
    /// The HTTP 305 Use Proxy status code indicates that the resource must be accessed through a proxy.
    UseProxy,

    /// # Temporary Redirect
    ///
    /// The HTTP 307 Temporary Redirect status code indicates that the resource resides temporarily under a different URI.
    TemporaryRedirect,

    /// # Permanent Redirect
    ///
    /// The HTTP 308 Permanent Redirect status code indicates that the resource has been permanently moved.
    PermanentRedirect,

    /// # Bad Request
    ///
    /// The HTTP 400 Bad Request status code indicates that the server cannot process the request due to client error.
    BadRequest,

    /// # Unauthorized
    ///
    /// The HTTP 401 Unauthorized status code indicates that authentication is required.
    Unauthorized,

    /// # Payment Required
    ///
    /// The HTTP 402 Payment Required status code is reserved for future use.
    PaymentRequired,

    /// # Forbidden
    ///
    /// The HTTP 403 Forbidden status code indicates that the client does not have access rights.
    Forbidden,

    /// # Not Found
    ///
    /// The HTTP 404 Not Found status code indicates that the server cannot find the requested resource.
    NotFound,

    /// # Method Not Allowed
    ///
    /// The HTTP 405 Method Not Allowed status code indicates that the request method is not supported.
    MethodNotAllowed,

    /// # Not Acceptable
    ///
    /// The HTTP 406 Not Acceptable status code indicates that the server cannot produce a response matching the criteria.
    NotAcceptable,

    /// # Proxy Authentication Required
    ///
    /// The HTTP 407 Proxy Authentication Required status code indicates that proxy authentication is required.
    ProxyAuthenticationRequired,

    /// # Request Timeout
    ///
    /// The HTTP 408 Request Timeout status code indicates that the server timed out waiting for the request.
    RequestTimeout,

    /// # Conflict
    ///
    /// The HTTP 409 Conflict status code indicates a conflict with the current state of the resource.
    Conflict,

    /// # Gone
    ///
    /// The HTTP 410 Gone status code indicates that the resource is no longer available.
    Gone,

    /// # Length Required
    ///
    /// The HTTP 411 Length Required status code indicates that the request did not specify content length.
    LengthRequired,

    /// # Precondition Failed
    ///
    /// The HTTP 412 Precondition Failed status code indicates that preconditions were not met.
    PreconditionFailed,

    /// # Payload Too Large
    ///
    /// The HTTP 413 Payload Too Large status code indicates that the request entity is too large.
    PayloadTooLarge,

    /// # URI Too Long
    ///
    /// The HTTP 414 URI Too Long status code indicates that the URI is too long.
    UriTooLong,

    /// # Unsupported Media Type
    ///
    /// The HTTP 415 Unsupported Media Type status code indicates that the media format is not supported.
    UnsupportedMediaType,

    /// # Range Not Satisfiable
    ///
    /// The HTTP 416 Range Not Satisfiable status code indicates that the requested range cannot be fulfilled.
    RangeNotSatisfiable,

    /// # Expectation Failed
    ///
    /// The HTTP 417 Expectation Failed status code indicates that expectations cannot be met.
    ExpectationFailed,

    /// # I'm a teapot
    ///
    /// The HTTP 418 I'm a teapot status code indicates that the server refuses to brew coffee because it is a teapot.
    ImATeapot,

    /// # Misdirected Request
    ///
    /// The HTTP 421 Misdirected Request status code indicates that the request was directed at a server unable to produce a response.
    MisdirectedRequest,

    /// # Unprocessable Entity
    ///
    /// The HTTP 422 Unprocessable Entity status code indicates that the request was well-formed but cannot be processed.
    UnprocessableEntity,

    /// # Locked
    ///
    /// The HTTP 423 Locked status code indicates that the resource is locked.
    Locked,

    /// # Failed Dependency
    ///
    /// The HTTP 424 Failed Dependency status code indicates that the request failed due to a previous request failure.
    FailedDependency,

    /// # Too Early
    ///
    /// The HTTP 425 Too Early status code indicates that the server is unwilling to risk processing a request.
    TooEarly,

    /// # Upgrade Required
    ///
    /// The HTTP 426 Upgrade Required status code indicates that the client should switch to a different protocol.
    UpgradeRequired,

    /// # Precondition Required
    ///
    /// The HTTP 428 Precondition Required status code indicates that the origin server requires the request to be conditional.
    PreconditionRequired,

    /// # Too Many Requests
    ///
    /// The HTTP 429 Too Many Requests status code indicates that the user has sent too many requests.
    TooManyRequests,

    /// # Request Header Fields Too Large
    ///
    /// The HTTP 431 status code indicates that the request header fields are too large.
    RequestHeaderFieldsTooLarge,

    /// # Unavailable For Legal Reasons
    ///
    /// The HTTP 451 Unavailable For Legal Reasons status code indicates that the resource is unavailable due to legal reasons.
    UnavailableForLegalReasons,

    /// # Internal Server Error
    ///
    /// The HTTP 500 Internal Server Error status code indicates that the server encountered an unexpected condition.
    InternalServerError,

    /// # Not Implemented
    ///
    /// The HTTP 501 Not Implemented status code indicates that the request method is not supported.
    NotImplemented,

    /// # Bad Gateway
    ///
    /// The HTTP 502 Bad Gateway status code indicates that the server received an invalid response from upstream.
    BadGateway,

    /// # Service Unavailable
    ///
    /// The HTTP 503 Service Unavailable status code indicates that the server is not ready to handle the request.
    ServiceUnavailable,

    /// # Gateway Timeout
    ///
    /// The HTTP 504 Gateway Timeout status code indicates that the server did not receive a timely response.
    GatewayTimeout,

    /// # HTTP Version Not Supported
    ///
    /// The HTTP 505 HTTP Version Not Supported status code indicates that the HTTP version is not supported.
    HttpVersionNotSupported,

    /// # Variant Also Negotiates
    ///
    /// The HTTP 506 Variant Also Negotiates status code indicates a configuration error.
    VariantAlsoNegotiates,

    /// # Insufficient Storage
    ///
    /// The HTTP 507 Insufficient Storage status code indicates that the server cannot store the representation.
    InsufficientStorage,

    /// # Loop Detected
    ///
    /// The HTTP 508 Loop Detected status code indicates that the server detected an infinite loop.
    LoopDetected,

    /// # Not Extended
    ///
    /// The HTTP 510 Not Extended status code indicates that further extensions are required.
    NotExtended,

    /// # Network Authentication Required
    ///
    /// The HTTP 511 Network Authentication Required status code indicates that authentication is required to gain network access.
    NetworkAuthenticationRequired,

    /// # Other
    ///
    /// A non-standard or custom HTTP status code.
    Other(u32),
}

/// The numeric status code of `c`.
pub open spec fn spec_code(c: HttpCode) -> u32 {
    match c {
        HttpCode::Continue => 100,
        HttpCode::SwitchingProtocols => 101,
        HttpCode::Processing => 102,
        HttpCode::EarlyHints => 103,
        HttpCode::OK => 200,
        HttpCode::Created => 201,
        HttpCode::Accepted => 202,
        HttpCode::NonAuthoritativeInformation => 203,
        HttpCode::NoContent => 204,
        HttpCode::ResetContent => 205,
        HttpCode::PartialContent => 206,
        HttpCode::MultiStatus => 207,
        HttpCode::AlreadyReported => 208,
        HttpCode::ImUsed => 226,
        HttpCode::MultipleChoices => 300,
        HttpCode::MovedPermanently => 301,
        HttpCode::Found => 302,
        HttpCode::SeeOther => 303,
        HttpCode::NotModified => 304,
        HttpCode::UseProxy => 305,
        HttpCode::TemporaryRedirect => 307,
        HttpCode::PermanentRedirect => 308,
        HttpCode::BadRequest => 400,
        HttpCode::Unauthorized => 401,
        HttpCode::PaymentRequired => 402,
        HttpCode::Forbidden => 403,
        HttpCode::NotFound => 404,
        HttpCode::MethodNotAllowed => 405,
        HttpCode::NotAcceptable => 406,
        HttpCode::ProxyAuthenticationRequired => 407,
        HttpCode::RequestTimeout => 408,
        HttpCode::Conflict => 409,
        HttpCode::Gone => 410,
        HttpCode::LengthRequired => 411,
        HttpCode::PreconditionFailed => 412,
        HttpCode::PayloadTooLarge => 413,
        HttpCode::UriTooLong => 414,
        HttpCode::UnsupportedMediaType => 415,
        HttpCode::RangeNotSatisfiable => 416,
        HttpCode::ExpectationFailed => 417,
        HttpCode::ImATeapot => 418,
        HttpCode::MisdirectedRequest => 421,
        HttpCode::UnprocessableEntity => 422,
        HttpCode::Locked => 423,
        HttpCode::FailedDependency => 424,
        HttpCode::TooEarly => 425,
        HttpCode::UpgradeRequired => 426,
        HttpCode::PreconditionRequired => 428,
        HttpCode::TooManyRequests => 429,
        HttpCode::RequestHeaderFieldsTooLarge => 431,
        HttpCode::UnavailableForLegalReasons => 451,
        HttpCode::InternalServerError => 500,
        HttpCode::NotImplemented => 501,
        HttpCode::BadGateway => 502,
        HttpCode::ServiceUnavailable => 503,
        HttpCode::GatewayTimeout => 504,
        HttpCode::HttpVersionNotSupported => 505,
        HttpCode::VariantAlsoNegotiates => 506,
        HttpCode::InsufficientStorage => 507,
        HttpCode::LoopDetected => 508,
        HttpCode::NotExtended => 510,
        HttpCode::NetworkAuthenticationRequired => 511,
        HttpCode::Other(n) => n,
    }
}

/// The variant for the numeric status code `n`; codes without a variant of
/// their own give `HttpCode::Other(n)`.
pub open spec fn spec_from_code(n: u32) -> HttpCode {
    if n == 100 {
        HttpCode::Continue
    } else if n == 101 {
        HttpCode::SwitchingProtocols
    } else if n == 102 {
        HttpCode::Processing
    } else if n == 103 {
        HttpCode::EarlyHints
    } else if n == 200 {
        HttpCode::OK
    } else if n == 201 {
        HttpCode::Created
    } else if n == 202 {
        HttpCode::Accepted
    } else if n == 203 {
        HttpCode::NonAuthoritativeInformation
    } else if n == 204 {
        HttpCode::NoContent
    } else if n == 205 {
        HttpCode::ResetContent
    } else if n == 206 {
        HttpCode::PartialContent
    } else if n == 207 {
        HttpCode::MultiStatus
    } else if n == 208 {
        HttpCode::AlreadyReported
    } else if n == 226 {
        HttpCode::ImUsed
    } else if n == 300 {
        HttpCode::MultipleChoices
    } else if n == 301 {
        HttpCode::MovedPermanently
    } else if n == 302 {
        HttpCode::Found
    } else if n == 303 {
        HttpCode::SeeOther
    } else if n == 304 {
        HttpCode::NotModified
    } else if n == 305 {
        HttpCode::UseProxy
    } else if n == 307 {
        HttpCode::TemporaryRedirect
    } else if n == 308 {
        HttpCode::PermanentRedirect
    } else if n == 400 {
        HttpCode::BadRequest
    } else if n == 401 {
        HttpCode::Unauthorized
    } else if n == 402 {
        HttpCode::PaymentRequired
    } else if n == 403 {
        HttpCode::Forbidden
    } else if n == 404 {
        HttpCode::NotFound
    } else if n == 405 {
        HttpCode::MethodNotAllowed
    } else if n == 406 {
        HttpCode::NotAcceptable
    } else if n == 407 {
        HttpCode::ProxyAuthenticationRequired
    } else if n == 408 {
        HttpCode::RequestTimeout
    } else if n == 409 {
        HttpCode::Conflict
    } else if n == 410 {
        HttpCode::Gone
    } else if n == 411 {
        HttpCode::LengthRequired
    } else if n == 412 {
        HttpCode::PreconditionFailed
    } else if n == 413 {
        HttpCode::PayloadTooLarge
    } else if n == 414 {
        HttpCode::UriTooLong
    } else if n == 415 {
        HttpCode::UnsupportedMediaType
    } else if n == 416 {
        HttpCode::RangeNotSatisfiable
    } else if n == 417 {
        HttpCode::ExpectationFailed
    } else if n == 418 {
        HttpCode::ImATeapot
    } else if n == 421 {
        HttpCode::MisdirectedRequest
    } else if n == 422 {
        HttpCode::UnprocessableEntity
    } else if n == 423 {
        HttpCode::Locked
    } else if n == 424 {
        HttpCode::FailedDependency
    } else if n == 425 {
        HttpCode::TooEarly
    } else if n == 426 {
        HttpCode::UpgradeRequired
    } else if n == 428 {
        HttpCode::PreconditionRequired
    } else if n == 429 {
        HttpCode::TooManyRequests
    } else if n == 431 {
        HttpCode::RequestHeaderFieldsTooLarge
    } else if n == 451 {
        HttpCode::UnavailableForLegalReasons
    } else if n == 500 {
        HttpCode::InternalServerError
    } else if n == 501 {
        HttpCode::NotImplemented
    } else if n == 502 {
        HttpCode::BadGateway
    } else if n == 503 {
        HttpCode::ServiceUnavailable
    } else if n == 504 {
        HttpCode::GatewayTimeout
    } else if n == 505 {
        HttpCode::HttpVersionNotSupported
    } else if n == 506 {
        HttpCode::VariantAlsoNegotiates
    } else if n == 507 {
        HttpCode::InsufficientStorage
    } else if n == 508 {
        HttpCode::LoopDetected
    } else if n == 510 {
        HttpCode::NotExtended
    } else if n == 511 {
        HttpCode::NetworkAuthenticationRequired
    } else {
        HttpCode::Other(n)
    }
}

/// The reason phrase of `c`; for `HttpCode::Other(n)` it is `Unknown n`.
pub open spec fn spec_status(c: HttpCode) -> Seq<char> {
    match c {
        HttpCode::Continue => "Continue"@,
        HttpCode::SwitchingProtocols => "Switching Protocols"@,
        HttpCode::Processing => "Processing"@,
        HttpCode::EarlyHints => "Early Hints"@,
        HttpCode::OK => "OK"@,
        HttpCode::Created => "Created"@,
        HttpCode::Accepted => "Accepted"@,
        HttpCode::NonAuthoritativeInformation => "Non-Authoritative Information"@,
        HttpCode::NoContent => "No Content"@,
        HttpCode::ResetContent => "Reset Content"@,
        HttpCode::PartialContent => "Partial Content"@,
        HttpCode::MultiStatus => "Multi-Status"@,
        HttpCode::AlreadyReported => "Already Reported"@,
        HttpCode::ImUsed => "IM Used"@,
        HttpCode::MultipleChoices => "Multiple Choices"@,
        HttpCode::MovedPermanently => "Moved Permanently"@,
        HttpCode::Found => "Found"@,
        HttpCode::SeeOther => "See Other"@,
        HttpCode::NotModified => "Not Modified"@,
        HttpCode::UseProxy => "Use Proxy"@,
        HttpCode::TemporaryRedirect => "Temporary Redirect"@,
        HttpCode::PermanentRedirect => "Permanent Redirect"@,
        HttpCode::BadRequest => "Bad Request"@,
        HttpCode::Unauthorized => "Unauthorized"@,
        HttpCode::PaymentRequired => "Payment Required"@,
        HttpCode::Forbidden => "Forbidden"@,
        HttpCode::NotFound => "Not Found"@,
        HttpCode::MethodNotAllowed => "Method Not Allowed"@,
        HttpCode::NotAcceptable => "Not Acceptable"@,
        HttpCode::ProxyAuthenticationRequired => "Proxy Authentication Required"@,
        HttpCode::RequestTimeout => "Request Timeout"@,
        HttpCode::Conflict => "Conflict"@,
        HttpCode::Gone => "Gone"@,
        HttpCode::LengthRequired => "Length Required"@,
        HttpCode::PreconditionFailed => "Precondition Failed"@,
        HttpCode::PayloadTooLarge => "Payload Too Large"@,
        HttpCode::UriTooLong => "URI Too Long"@,
        HttpCode::UnsupportedMediaType => "Unsupported Media Type"@,
        HttpCode::RangeNotSatisfiable => "Range Not Satisfiable"@,
        HttpCode::ExpectationFailed => "Expectation Failed"@,
        HttpCode::ImATeapot => "I'm a teapot"@,
        HttpCode::MisdirectedRequest => "Misdirected Request"@,
        HttpCode::UnprocessableEntity => "Unprocessable Entity"@,
        HttpCode::Locked => "Locked"@,
        HttpCode::FailedDependency => "Failed Dependency"@,
        HttpCode::TooEarly => "Too Early"@,
        HttpCode::UpgradeRequired => "Upgrade Required"@,
        HttpCode::PreconditionRequired => "Precondition Required"@,
        HttpCode::TooManyRequests => "Too Many Requests"@,
        HttpCode::RequestHeaderFieldsTooLarge => "Request Header Fields Too Large"@,
        HttpCode::UnavailableForLegalReasons => "Unavailable For Legal Reasons"@,
        HttpCode::InternalServerError => "Internal Server Error"@,
        HttpCode::NotImplemented => "Not Implemented"@,
        HttpCode::BadGateway => "Bad Gateway"@,
        HttpCode::ServiceUnavailable => "Service Unavailable"@,
        HttpCode::GatewayTimeout => "Gateway Timeout"@,
        HttpCode::HttpVersionNotSupported => "HTTP Version Not Supported"@,
        HttpCode::VariantAlsoNegotiates => "Variant Also Negotiates"@,
        HttpCode::InsufficientStorage => "Insufficient Storage"@,
        HttpCode::LoopDetected => "Loop Detected"@,
        HttpCode::NotExtended => "Not Extended"@,
        HttpCode::NetworkAuthenticationRequired => "Network Authentication Required"@,
        HttpCode::Other(n) => "Unknown "@ + decimal(n as nat),
    }
}

/// Converting a number to a status code and back gives the number again.
pub proof fn lemma_code_roundtrip(n: u32)
    ensures
        spec_code(spec_from_code(n)) == n,
{
}

/// Converting a status code to its number and back gives the status code again,
/// except for an `Other` that holds the number of a standard status code, which
/// comes back as that standard variant.
pub proof fn lemma_variant_roundtrip(c: HttpCode)
    ensures
        !(c is Other) ==> spec_from_code(spec_code(c)) == c,
        c matches HttpCode::Other(n) ==> (spec_from_code(spec_code(c)) == c <==> spec_from_code(
            n,
        ) is Other),
{
}

impl HttpCode {
    /// # As Status Code
    ///
    /// Returns the HTTP code as a `u32`: `HttpCode::OK.as_status_code()` is `200`.
    pub fn as_status_code(&self) -> (r: u32)
        ensures
            r == spec_code(*self),
    {
        match self {
            HttpCode::Continue => 100,
            HttpCode::SwitchingProtocols => 101,
            HttpCode::Processing => 102,
            HttpCode::EarlyHints => 103,
            HttpCode::OK => 200,
            HttpCode::Created => 201,
            HttpCode::Accepted => 202,
            HttpCode::NonAuthoritativeInformation => 203,
            HttpCode::NoContent => 204,
            HttpCode::ResetContent => 205,
            HttpCode::PartialContent => 206,
            HttpCode::MultiStatus => 207,
            HttpCode::AlreadyReported => 208,
            HttpCode::ImUsed => 226,
            HttpCode::MultipleChoices => 300,
            HttpCode::MovedPermanently => 301,
            HttpCode::Found => 302,
            HttpCode::SeeOther => 303,
            HttpCode::NotModified => 304,
            HttpCode::UseProxy => 305,
            HttpCode::TemporaryRedirect => 307,
            HttpCode::PermanentRedirect => 308,
            HttpCode::BadRequest => 400,
            HttpCode::Unauthorized => 401,
            HttpCode::PaymentRequired => 402,
            HttpCode::Forbidden => 403,
            HttpCode::NotFound => 404,
            HttpCode::MethodNotAllowed => 405,
            HttpCode::NotAcceptable => 406,
            HttpCode::ProxyAuthenticationRequired => 407,
            HttpCode::RequestTimeout => 408,
            HttpCode::Conflict => 409,
            HttpCode::Gone => 410,
            HttpCode::LengthRequired => 411,
            HttpCode::PreconditionFailed => 412,
            HttpCode::PayloadTooLarge => 413,
            HttpCode::UriTooLong => 414,
            HttpCode::UnsupportedMediaType => 415,
            HttpCode::RangeNotSatisfiable => 416,
            HttpCode::ExpectationFailed => 417,
            HttpCode::ImATeapot => 418,
            HttpCode::MisdirectedRequest => 421,
            HttpCode::UnprocessableEntity => 422,
            HttpCode::Locked => 423,
            HttpCode::FailedDependency => 424,
            HttpCode::TooEarly => 425,
            HttpCode::UpgradeRequired => 426,
            HttpCode::PreconditionRequired => 428,
            HttpCode::TooManyRequests => 429,
            HttpCode::RequestHeaderFieldsTooLarge => 431,
            HttpCode::UnavailableForLegalReasons => 451,
            HttpCode::InternalServerError => 500,
            HttpCode::NotImplemented => 501,
            HttpCode::BadGateway => 502,
            HttpCode::ServiceUnavailable => 503,
            HttpCode::GatewayTimeout => 504,
            HttpCode::HttpVersionNotSupported => 505,
            HttpCode::VariantAlsoNegotiates => 506,
            HttpCode::InsufficientStorage => 507,
            HttpCode::LoopDetected => 508,
            HttpCode::NotExtended => 510,
            HttpCode::NetworkAuthenticationRequired => 511,
            HttpCode::Other(c) => *c,
        }
    }

    /// # As Status
    ///
    /// Returns the reason phrase: `HttpCode::Continue.as_status()` is `"Continue"`.
    pub fn as_status(&self) -> (r: String)
        ensures
            r@ == spec_status(*self),
    {
        match self {
            HttpCode::Continue => copy_string("Continue"),
            HttpCode::SwitchingProtocols => copy_string("Switching Protocols"),
            HttpCode::Processing => copy_string("Processing"),
            HttpCode::EarlyHints => copy_string("Early Hints"),
            HttpCode::OK => copy_string("OK"),
            HttpCode::Created => copy_string("Created"),
            HttpCode::Accepted => copy_string("Accepted"),
            HttpCode::NonAuthoritativeInformation => copy_string("Non-Authoritative Information"),
            HttpCode::NoContent => copy_string("No Content"),
            HttpCode::ResetContent => copy_string("Reset Content"),
            HttpCode::PartialContent => copy_string("Partial Content"),
            HttpCode::MultiStatus => copy_string("Multi-Status"),
            HttpCode::AlreadyReported => copy_string("Already Reported"),
            HttpCode::ImUsed => copy_string("IM Used"),
            HttpCode::MultipleChoices => copy_string("Multiple Choices"),
            HttpCode::MovedPermanently => copy_string("Moved Permanently"),
            HttpCode::Found => copy_string("Found"),
            HttpCode::SeeOther => copy_string("See Other"),
            HttpCode::NotModified => copy_string("Not Modified"),
            HttpCode::UseProxy => copy_string("Use Proxy"),
            HttpCode::TemporaryRedirect => copy_string("Temporary Redirect"),
            HttpCode::PermanentRedirect => copy_string("Permanent Redirect"),
            HttpCode::BadRequest => copy_string("Bad Request"),
            HttpCode::Unauthorized => copy_string("Unauthorized"),
            HttpCode::PaymentRequired => copy_string("Payment Required"),
            HttpCode::Forbidden => copy_string("Forbidden"),
            HttpCode::NotFound => copy_string("Not Found"),
            HttpCode::MethodNotAllowed => copy_string("Method Not Allowed"),
            HttpCode::NotAcceptable => copy_string("Not Acceptable"),
            HttpCode::ProxyAuthenticationRequired => copy_string("Proxy Authentication Required"),
            HttpCode::RequestTimeout => copy_string("Request Timeout"),
            HttpCode::Conflict => copy_string("Conflict"),
            HttpCode::Gone => copy_string("Gone"),
            HttpCode::LengthRequired => copy_string("Length Required"),
            HttpCode::PreconditionFailed => copy_string("Precondition Failed"),
            HttpCode::PayloadTooLarge => copy_string("Payload Too Large"),
            HttpCode::UriTooLong => copy_string("URI Too Long"),
            HttpCode::UnsupportedMediaType => copy_string("Unsupported Media Type"),
            HttpCode::RangeNotSatisfiable => copy_string("Range Not Satisfiable"),
            HttpCode::ExpectationFailed => copy_string("Expectation Failed"),
            HttpCode::ImATeapot => copy_string("I'm a teapot"),
            HttpCode::MisdirectedRequest => copy_string("Misdirected Request"),
            HttpCode::UnprocessableEntity => copy_string("Unprocessable Entity"),
            HttpCode::Locked => copy_string("Locked"),
            HttpCode::FailedDependency => copy_string("Failed Dependency"),
            HttpCode::TooEarly => copy_string("Too Early"),
            HttpCode::UpgradeRequired => copy_string("Upgrade Required"),
            HttpCode::PreconditionRequired => copy_string("Precondition Required"),
            HttpCode::TooManyRequests => copy_string("Too Many Requests"),
            HttpCode::RequestHeaderFieldsTooLarge => copy_string("Request Header Fields Too Large"),
            HttpCode::UnavailableForLegalReasons => copy_string("Unavailable For Legal Reasons"),
            HttpCode::InternalServerError => copy_string("Internal Server Error"),
            HttpCode::NotImplemented => copy_string("Not Implemented"),
            HttpCode::BadGateway => copy_string("Bad Gateway"),
            HttpCode::ServiceUnavailable => copy_string("Service Unavailable"),
            HttpCode::GatewayTimeout => copy_string("Gateway Timeout"),
            HttpCode::HttpVersionNotSupported => copy_string("HTTP Version Not Supported"),
            HttpCode::VariantAlsoNegotiates => copy_string("Variant Also Negotiates"),
            HttpCode::InsufficientStorage => copy_string("Insufficient Storage"),
            HttpCode::LoopDetected => copy_string("Loop Detected"),
            HttpCode::NotExtended => copy_string("Not Extended"),
            HttpCode::NetworkAuthenticationRequired => copy_string("Network Authentication Required"),
            HttpCode::Other(c) => {
                let digits = decimal_string(*c as u64);
                concat("Unknown ", digits.as_str())
            },
        }
    }
}

impl Default for HttpCode {
    fn default() -> (r: Self)
        ensures
            r == HttpCode::OK,
    {
        HttpCode::OK
    }
}

/// Maps a numeric status code (e.g. `200`) to the corresponding variant.
/// Unknown codes fall through to `HttpCode::Other`.
impl From<u32> for HttpCode {
    fn from(n: u32) -> (r: HttpCode) {
        match n {
            100 => HttpCode::Continue,
            101 => HttpCode::SwitchingProtocols,
            102 => HttpCode::Processing,
            103 => HttpCode::EarlyHints,
            200 => HttpCode::OK,
            201 => HttpCode::Created,
            202 => HttpCode::Accepted,
            203 => HttpCode::NonAuthoritativeInformation,
            204 => HttpCode::NoContent,
            205 => HttpCode::ResetContent,
            206 => HttpCode::PartialContent,
            207 => HttpCode::MultiStatus,
            208 => HttpCode::AlreadyReported,
            226 => HttpCode::ImUsed,
            300 => HttpCode::MultipleChoices,
            301 => HttpCode::MovedPermanently,
            302 => HttpCode::Found,
            303 => HttpCode::SeeOther,
            304 => HttpCode::NotModified,
            305 => HttpCode::UseProxy,
            307 => HttpCode::TemporaryRedirect,
            308 => HttpCode::PermanentRedirect,
            400 => HttpCode::BadRequest,
            401 => HttpCode::Unauthorized,
            402 => HttpCode::PaymentRequired,
            403 => HttpCode::Forbidden,
            404 => HttpCode::NotFound,
            405 => HttpCode::MethodNotAllowed,
            406 => HttpCode::NotAcceptable,
            407 => HttpCode::ProxyAuthenticationRequired,
            408 => HttpCode::RequestTimeout,
            409 => HttpCode::Conflict,
            410 => HttpCode::Gone,
            411 => HttpCode::LengthRequired,
            412 => HttpCode::PreconditionFailed,
            413 => HttpCode::PayloadTooLarge,
            414 => HttpCode::UriTooLong,
            415 => HttpCode::UnsupportedMediaType,
            416 => HttpCode::RangeNotSatisfiable,
            417 => HttpCode::ExpectationFailed,
            418 => HttpCode::ImATeapot,
            421 => HttpCode::MisdirectedRequest,
            422 => HttpCode::UnprocessableEntity,
            423 => HttpCode::Locked,
            424 => HttpCode::FailedDependency,
            425 => HttpCode::TooEarly,
            426 => HttpCode::UpgradeRequired,
            428 => HttpCode::PreconditionRequired,
            429 => HttpCode::TooManyRequests,
            431 => HttpCode::RequestHeaderFieldsTooLarge,
            451 => HttpCode::UnavailableForLegalReasons,
            500 => HttpCode::InternalServerError,
            501 => HttpCode::NotImplemented,
            502 => HttpCode::BadGateway,
            503 => HttpCode::ServiceUnavailable,
            504 => HttpCode::GatewayTimeout,
            505 => HttpCode::HttpVersionNotSupported,
            506 => HttpCode::VariantAlsoNegotiates,
            507 => HttpCode::InsufficientStorage,
            508 => HttpCode::LoopDetected,
            510 => HttpCode::NotExtended,
            511 => HttpCode::NetworkAuthenticationRequired,
            _ => HttpCode::Other(n),
        }
    }
}

impl vstd::std_specs::convert::FromSpecImpl<u32> for HttpCode {
    open spec fn obeys_from_spec() -> bool {
        true
    }

    open spec fn from_spec(n: u32) -> HttpCode {
        spec_from_code(n)
    }
}

/// Converts an `HttpCode` back into its numeric status code.
impl From<HttpCode> for u32 {
    fn from(c: HttpCode) -> (r: u32) {
        c.as_status_code()
    }
}

impl vstd::std_specs::convert::FromSpecImpl<HttpCode> for u32 {
    open spec fn obeys_from_spec() -> bool {
        true
    }

    open spec fn from_spec(c: HttpCode) -> u32 {
        spec_code(c)
    }
}

} // verus!
