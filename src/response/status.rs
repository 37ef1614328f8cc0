//! Response status lines and codes.
use vstd::prelude::*;
use vstd::utf8::encode_utf8;

verus! {

/// The most common response statuses.
#[derive(Debug, PartialEq, Eq, Structural, Clone, Copy)]
pub enum HttpStatus {
    /// No status: the fallback of a parse
    Undefined,
    /// 100
    Continue,
    /// 101
    SwitchingProtocols,
    /// 200
    OK,
    /// 201
    Created,
    /// 202
    Accepted,
    /// 203
    NonAuthoritativeInformation,
    /// 204
    NoContent,
    /// 205
    ResetContent,
    /// 206
    PartialContent,
    /// 300
    MultipleChoices,
    /// 301
    MovedPermanently,
    /// 302
    Found,
    /// 303
    SeeOther,
    /// 304
    NotModified,
    /// 305
    UseProxy,
    /// 306
    Unused306,
    /// 307
    TemporaryRedirect,
    /// 400
    BadRequest,
    /// 401
    Unauthorized,
    /// 402
    PaymentRequired,
    /// 403
    Forbidden,
    /// 404
    NotFound,
    /// 405
    MethodNotAllowed,
    /// 406
    NotAcceptable,
    /// 407
    ProxyAuthenticationRequired,
    /// 408
    RequestTimeout,
    /// 409
    Conflict,
    /// 410
    Gone,
    /// 411
    LengthRequired,
    /// 412
    PreconditionFailed,
    /// 413
    RequestEntityTooLarge,
    /// 414
    RequestURITooLong,
    /// 415
    UnsupportedMediaType,
    /// 416
    RequestedRangeNotSatisfiable,
    /// 417
    ExpectationFailed,
    /// 500
    InternalServerError,
    /// 501
    NotImplemented,
    /// 502
    BadGateway,
    /// 503
    ServiceUnavailable,
    /// 504
    GatewayTimeout,
    /// 505
    HTTPVersionNotSupported,
}

impl Default for HttpStatus {
    fn default() -> (r: HttpStatus)
        ensures
            r == HttpStatus::Undefined,
    {
        HttpStatus::Undefined
    }
}

/// The status line that opens a response with status `s` (empty for `Undefined`).
pub open spec fn status_text(s: HttpStatus) -> Seq<char> {
    match s {
        HttpStatus::Undefined => ""@,
        HttpStatus::Continue => "HTTP/1.1 100 CONTINUE\r\n"@,
        HttpStatus::SwitchingProtocols => "HTTP/1.1 101 SWITCHING PROTOCOLS\r\n"@,
        HttpStatus::OK => "HTTP/1.1 200 OK\r\n"@,
        HttpStatus::Created => "HTTP/1.1 201 CREATED\r\n"@,
        HttpStatus::Accepted => "HTTP/1.1 202 ACCEPTED\r\n"@,
        HttpStatus::NonAuthoritativeInformation => "HTTP/1.1 203 NON AUTHORITATIVE INFORMATION\r\n"@,
        HttpStatus::NoContent => "HTTP/1.1 204 NO CONTENT\r\n"@,
        HttpStatus::ResetContent => "HTTP/1.1 205 RESET CONTENT\r\n"@,
        HttpStatus::PartialContent => "HTTP/1.1 206 PARTIAL CONTENT\r\n"@,
        HttpStatus::MultipleChoices => "HTTP/1.1 300 MULTIPLE CHOICES\r\n"@,
        HttpStatus::MovedPermanently => "HTTP/1.1 301 MOVED PERMANENTLY\r\n"@,
        HttpStatus::Found => "HTTP/1.1 302 FOUND\r\n"@,
        HttpStatus::SeeOther => "HTTP/1.1 303 SEE OTHER\r\n"@,
        HttpStatus::NotModified => "HTTP/1.1 304 NOT MODIFIED\r\n"@,
        HttpStatus::UseProxy => "HTTP/1.1 305 USE PROXY\r\n"@,
        HttpStatus::Unused306 => "HTTP/1.1 306 \r\n"@,
        HttpStatus::TemporaryRedirect => "HTTP/1.1 307 TEMPORARY REDIRECT\r\n"@,
        HttpStatus::BadRequest => "HTTP/1.1 400 BAD REQUEST\r\n"@,
        HttpStatus::Unauthorized => "HTTP/1.1 401 UNAUTHORIZED\r\n"@,
        HttpStatus::PaymentRequired => "HTTP/1.1 402 PAYMENT REQUIERED\r\n"@,
        HttpStatus::Forbidden => "HTTP/1.1 403 FORBIDDEN\r\n"@,
        HttpStatus::NotFound => "HTTP/1.1 404 NOT FOUND\r\n"@,
        HttpStatus::MethodNotAllowed => "HTTP/1.1 405 METHOD NOT ALLOWED\r\n"@,
        HttpStatus::NotAcceptable => "HTTP/1.1 406 NOT ACCEPTABLE\r\n"@,
        HttpStatus::ProxyAuthenticationRequired => "HTTP/1.1 407 PROXY AUTHENTICATION REQUIERED\r\n"@,
        HttpStatus::RequestTimeout => "HTTP/1.1 408 REQUEST TIMEOUT\r\n"@,
        HttpStatus::Conflict => "HTTP/1.1 409 CONFLICT\r\n"@,
        HttpStatus::Gone => "HTTP/1.1 410 GONE\r\n"@,
        HttpStatus::LengthRequired => "HTTP/1.1 411 LENGHT REQUIRED\r\n"@,
        HttpStatus::PreconditionFailed => "HTTP/1.1 412 PRECONDITION FAILED\r\n"@,
        HttpStatus::RequestEntityTooLarge => "HTTP/1.1 413 REQUEST ENTITY TOO LARGE\r\n"@,
        HttpStatus::RequestURITooLong => "HTTP/1.1 414 REQUEST URI TOO LONG\r\n"@,
        HttpStatus::UnsupportedMediaType => "HTTP/1.1 415 UNSUPPORTED MEDIA TYPE\r\n"@,
        HttpStatus::RequestedRangeNotSatisfiable => "HTTP/1.1 416 REQUEST RANGE NOT SATISFIABLE\r\n"@,
        HttpStatus::ExpectationFailed => "HTTP/1.1 417 EXPECTATION FAILED\r\n"@,
        HttpStatus::InternalServerError => "HTTP/1.1 500 INTERNAL SERVER ERROR\r\n"@,
        HttpStatus::NotImplemented => "HTTP/1.1 501 NOT IMPLEMENTED\r\n"@,
        HttpStatus::BadGateway => "HTTP/1.1 502 BAD GATEWAY\r\n"@,
        HttpStatus::ServiceUnavailable => "HTTP/1.1 503 SERVICE UNAVAILABLE\r\n"@,
        HttpStatus::GatewayTimeout => "HTTP/1.1 504 GATEWAY TIMEOUT\r\n"@,
        HttpStatus::HTTPVersionNotSupported => "HTTP/1.1 505 HTTP VERSION NOT SUPPORTED\r\n"@,
    }
}

/// The numeric code of status `s` (-1 for `Undefined`).
pub open spec fn status_code(s: HttpStatus) -> int {
    match s {
        HttpStatus::Undefined => -1,
        HttpStatus::Continue => 100,
        HttpStatus::SwitchingProtocols => 101,
        HttpStatus::OK => 200,
        HttpStatus::Created => 201,
        HttpStatus::Accepted => 202,
        HttpStatus::NonAuthoritativeInformation => 203,
        HttpStatus::NoContent => 204,
        HttpStatus::ResetContent => 205,
        HttpStatus::PartialContent => 206,
        HttpStatus::MultipleChoices => 300,
        HttpStatus::MovedPermanently => 301,
        HttpStatus::Found => 302,
        HttpStatus::SeeOther => 303,
        HttpStatus::NotModified => 304,
        HttpStatus::UseProxy => 305,
        HttpStatus::Unused306 => 306,
        HttpStatus::TemporaryRedirect => 307,
        HttpStatus::BadRequest => 400,
        HttpStatus::Unauthorized => 401,
        HttpStatus::PaymentRequired => 402,
        HttpStatus::Forbidden => 403,
        HttpStatus::NotFound => 404,
        HttpStatus::MethodNotAllowed => 405,
        HttpStatus::NotAcceptable => 406,
        HttpStatus::ProxyAuthenticationRequired => 407,
        HttpStatus::RequestTimeout => 408,
        HttpStatus::Conflict => 409,
        HttpStatus::Gone => 410,
        HttpStatus::LengthRequired => 411,
        HttpStatus::PreconditionFailed => 412,
        HttpStatus::RequestEntityTooLarge => 413,
        HttpStatus::RequestURITooLong => 414,
        HttpStatus::UnsupportedMediaType => 415,
        HttpStatus::RequestedRangeNotSatisfiable => 416,
        HttpStatus::ExpectationFailed => 417,
        HttpStatus::InternalServerError => 500,
        HttpStatus::NotImplemented => 501,
        HttpStatus::BadGateway => 502,
        HttpStatus::ServiceUnavailable => 503,
        HttpStatus::GatewayTimeout => 504,
        HttpStatus::HTTPVersionNotSupported => 505,
    }
}

impl HttpStatus {
    /// The status line that opens a response with this status.
    pub fn status_line(&self) -> (r: &'static str)
        ensures
            r@ == status_text(*self),
    {
        match *self {
            HttpStatus::Undefined => "",
            HttpStatus::Continue => "HTTP/1.1 100 CONTINUE\r\n",
            HttpStatus::SwitchingProtocols => "HTTP/1.1 101 SWITCHING PROTOCOLS\r\n",
            HttpStatus::OK => "HTTP/1.1 200 OK\r\n",
            HttpStatus::Created => "HTTP/1.1 201 CREATED\r\n",
            HttpStatus::Accepted => "HTTP/1.1 202 ACCEPTED\r\n",
            HttpStatus::NonAuthoritativeInformation => "HTTP/1.1 203 NON AUTHORITATIVE INFORMATION\r\n",
            HttpStatus::NoContent => "HTTP/1.1 204 NO CONTENT\r\n",
            HttpStatus::ResetContent => "HTTP/1.1 205 RESET CONTENT\r\n",
            HttpStatus::PartialContent => "HTTP/1.1 206 PARTIAL CONTENT\r\n",
            HttpStatus::MultipleChoices => "HTTP/1.1 300 MULTIPLE CHOICES\r\n",
            HttpStatus::MovedPermanently => "HTTP/1.1 301 MOVED PERMANENTLY\r\n",
            HttpStatus::Found => "HTTP/1.1 302 FOUND\r\n",
            HttpStatus::SeeOther => "HTTP/1.1 303 SEE OTHER\r\n",
            HttpStatus::NotModified => "HTTP/1.1 304 NOT MODIFIED\r\n",
            HttpStatus::UseProxy => "HTTP/1.1 305 USE PROXY\r\n",
            HttpStatus::Unused306 => "HTTP/1.1 306 \r\n",
            HttpStatus::TemporaryRedirect => "HTTP/1.1 307 TEMPORARY REDIRECT\r\n",
            HttpStatus::BadRequest => "HTTP/1.1 400 BAD REQUEST\r\n",
            HttpStatus::Unauthorized => "HTTP/1.1 401 UNAUTHORIZED\r\n",
            HttpStatus::PaymentRequired => "HTTP/1.1 402 PAYMENT REQUIERED\r\n",
            HttpStatus::Forbidden => "HTTP/1.1 403 FORBIDDEN\r\n",
            HttpStatus::NotFound => "HTTP/1.1 404 NOT FOUND\r\n",
            HttpStatus::MethodNotAllowed => "HTTP/1.1 405 METHOD NOT ALLOWED\r\n",
            HttpStatus::NotAcceptable => "HTTP/1.1 406 NOT ACCEPTABLE\r\n",
            HttpStatus::ProxyAuthenticationRequired => "HTTP/1.1 407 PROXY AUTHENTICATION REQUIERED\r\n",
            HttpStatus::RequestTimeout => "HTTP/1.1 408 REQUEST TIMEOUT\r\n",
            HttpStatus::Conflict => "HTTP/1.1 409 CONFLICT\r\n",
            HttpStatus::Gone => "HTTP/1.1 410 GONE\r\n",
            HttpStatus::LengthRequired => "HTTP/1.1 411 LENGHT REQUIRED\r\n",
            HttpStatus::PreconditionFailed => "HTTP/1.1 412 PRECONDITION FAILED\r\n",
            HttpStatus::RequestEntityTooLarge => "HTTP/1.1 413 REQUEST ENTITY TOO LARGE\r\n",
            HttpStatus::RequestURITooLong => "HTTP/1.1 414 REQUEST URI TOO LONG\r\n",
            HttpStatus::UnsupportedMediaType => "HTTP/1.1 415 UNSUPPORTED MEDIA TYPE\r\n",
            HttpStatus::RequestedRangeNotSatisfiable => "HTTP/1.1 416 REQUEST RANGE NOT SATISFIABLE\r\n",
            HttpStatus::ExpectationFailed => "HTTP/1.1 417 EXPECTATION FAILED\r\n",
            HttpStatus::InternalServerError => "HTTP/1.1 500 INTERNAL SERVER ERROR\r\n",
            HttpStatus::NotImplemented => "HTTP/1.1 501 NOT IMPLEMENTED\r\n",
            HttpStatus::BadGateway => "HTTP/1.1 502 BAD GATEWAY\r\n",
            HttpStatus::ServiceUnavailable => "HTTP/1.1 503 SERVICE UNAVAILABLE\r\n",
            HttpStatus::GatewayTimeout => "HTTP/1.1 504 GATEWAY TIMEOUT\r\n",
            HttpStatus::HTTPVersionNotSupported => "HTTP/1.1 505 HTTP VERSION NOT SUPPORTED\r\n",
        }
    }

    /// The status line as bytes, ready to be sent.
    pub fn as_bytes(&self) -> (r: &'static [u8])
        ensures
            r@ == encode_utf8(status_text(*self)),
    {
        self.status_line().as_bytes()
    }

    /// The numeric code of this status.
    pub fn to_int(&self) -> (r: i32)
        ensures
            r as int == status_code(*self),
    {
        match *self {
            HttpStatus::Undefined => -1,
            HttpStatus::Continue => 100,
            HttpStatus::SwitchingProtocols => 101,
            HttpStatus::OK => 200,
            HttpStatus::Created => 201,
            HttpStatus::Accepted => 202,
            HttpStatus::NonAuthoritativeInformation => 203,
            HttpStatus::NoContent => 204,
            HttpStatus::ResetContent => 205,
            HttpStatus::PartialContent => 206,
            HttpStatus::MultipleChoices => 300,
            HttpStatus::MovedPermanently => 301,
            HttpStatus::Found => 302,
            HttpStatus::SeeOther => 303,
            HttpStatus::NotModified => 304,
            HttpStatus::UseProxy => 305,
            HttpStatus::Unused306 => 306,
            HttpStatus::TemporaryRedirect => 307,
            HttpStatus::BadRequest => 400,
            HttpStatus::Unauthorized => 401,
            HttpStatus::PaymentRequired => 402,
            HttpStatus::Forbidden => 403,
            HttpStatus::NotFound => 404,
            HttpStatus::MethodNotAllowed => 405,
            HttpStatus::NotAcceptable => 406,
            HttpStatus::ProxyAuthenticationRequired => 407,
            HttpStatus::RequestTimeout => 408,
            HttpStatus::Conflict => 409,
            HttpStatus::Gone => 410,
            HttpStatus::LengthRequired => 411,
            HttpStatus::PreconditionFailed => 412,
            HttpStatus::RequestEntityTooLarge => 413,
            HttpStatus::RequestURITooLong => 414,
            HttpStatus::UnsupportedMediaType => 415,
            HttpStatus::RequestedRangeNotSatisfiable => 416,
            HttpStatus::ExpectationFailed => 417,
            HttpStatus::InternalServerError => 500,
            HttpStatus::NotImplemented => 501,
            HttpStatus::BadGateway => 502,
            HttpStatus::ServiceUnavailable => 503,
            HttpStatus::GatewayTimeout => 504,
            HttpStatus::HTTPVersionNotSupported => 505,
        }
    }
}

} // verus!
