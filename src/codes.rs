//! The closed set of classification codes, and their partial one-to-one
//! mappings onto HTTP status values and `std::io::ErrorKind`.

use std::io::ErrorKind;
use vstd::prelude::*;

verus! {

#[verifier::external_type_specification]
pub struct ExErrorKind(ErrorKind);

/// Error handling codes.
///
/// Provides runtime information that the caller can use to bypass faulty
/// resources or reformulate an operation.
#[derive(Debug, Clone, Copy, PartialEq, Eq, Structural)]
pub enum ErrorCode {
    RuntimeInvalidValue,
    RuntimeInvalidIndex,
    RuntimeInvalidKey,
    RuntimeNotImplemented,
    // HTTP 4xx
    HttpBadRequest,
    HttpUnauthorized,
    HttpPaymentRequired,
    HttpForbidden,
    HttpNotFound,
    HttpMethodNotAllowed,
    HttpNotAcceptable,
    HttpProxyAuthenticationRequired,
    HttpRequestTimeout,
    HttpConflict,
    HttpGone,
    HttpLengthRequired,
    HttpPreconditionFailed,
    HttpPayloadTooLarge,
    HttpUriTooLong,
    HttpUnsupportedMediaType,
    HttpRangeNotSatisfiable,
    HttpExpectationFailed,
    HttpImATeapot,
    HttpMisdirectedRequest,
    HttpUnprocessableEntity,
    HttpLocked,
    HttpFailedDependency,
    HttpTooEarly,
    HttpUpgradeRequired,
    HttpPreconditionRequired,
    HttpTooManyRequests,
    HttpRequestHeaderFieldsTooLarge,
    HttpUnavailableForLegalReasons,
    // HTTP 5xx
    HttpInternalServerError,
    HttpNotImplemented,
    HttpBadGateway,
    HttpServiceUnavailable,
    HttpGatewayTimeout,
    HttpHttpVersionNotSupported,
    HttpVariantAlsoNegotiates,
    HttpInsufficientStorage,
    HttpLoopDetected,
    HttpNotExtended,
    HttpNetworkAuthenticationRequired,
    // IO
    IoNotFound,
    IoPermissionDenied,
    IoConnectionRefused,
    IoConnectionReset,
    IoConnectionAborted,
    IoNotConnected,
    IoAddrInUse,
    IoAddrNotAvailable,
    IoBrokenPipe,
    IoAlreadyExists,
    IoWouldBlock,
    IoInvalidInput,
    IoInvalidData,
    IoTimedOut,
    IoWriteZero,
    IoInterrupted,
    IoUnsupported,
    IoUnexpectedEof,
    IoOutOfMemory,
    IoOther,
}

/// The HTTP status value of a code, for the codes of the HTTP subset.
pub open spec fn http_status_of(code: ErrorCode) -> Option<u16> {
    match code {
        ErrorCode::HttpBadRequest => Some(400),
        ErrorCode::HttpUnauthorized => Some(401),
        ErrorCode::HttpPaymentRequired => Some(402),
        ErrorCode::HttpForbidden => Some(403),
        ErrorCode::HttpNotFound => Some(404),
        ErrorCode::HttpMethodNotAllowed => Some(405),
        ErrorCode::HttpNotAcceptable => Some(406),
        ErrorCode::HttpProxyAuthenticationRequired => Some(407),
        ErrorCode::HttpRequestTimeout => Some(408),
        ErrorCode::HttpConflict => Some(409),
        ErrorCode::HttpGone => Some(410),
        ErrorCode::HttpLengthRequired => Some(411),
        ErrorCode::HttpPreconditionFailed => Some(412),
        ErrorCode::HttpPayloadTooLarge => Some(413),
        ErrorCode::HttpUriTooLong => Some(414),
        ErrorCode::HttpUnsupportedMediaType => Some(415),
        ErrorCode::HttpRangeNotSatisfiable => Some(416),
        ErrorCode::HttpExpectationFailed => Some(417),
        ErrorCode::HttpImATeapot => Some(418),
        ErrorCode::HttpMisdirectedRequest => Some(421),
        ErrorCode::HttpUnprocessableEntity => Some(422),
        ErrorCode::HttpLocked => Some(423),
        ErrorCode::HttpFailedDependency => Some(424),
        ErrorCode::HttpTooEarly => Some(425),
        ErrorCode::HttpUpgradeRequired => Some(426),
        ErrorCode::HttpPreconditionRequired => Some(428),
        ErrorCode::HttpTooManyRequests => Some(429),
        ErrorCode::HttpRequestHeaderFieldsTooLarge => Some(431),
        ErrorCode::HttpUnavailableForLegalReasons => Some(451),
        ErrorCode::HttpInternalServerError => Some(500),
        ErrorCode::HttpNotImplemented => Some(501),
        ErrorCode::HttpBadGateway => Some(502),
        ErrorCode::HttpServiceUnavailable => Some(503),
        ErrorCode::HttpGatewayTimeout => Some(504),
        ErrorCode::HttpHttpVersionNotSupported => Some(505),
        ErrorCode::HttpVariantAlsoNegotiates => Some(506),
        ErrorCode::HttpInsufficientStorage => Some(507),
        ErrorCode::HttpLoopDetected => Some(508),
        ErrorCode::HttpNotExtended => Some(510),
        ErrorCode::HttpNetworkAuthenticationRequired => Some(511),
        _ => None,
    }
}

/// The code whose HTTP status value is `value`, if there is one.
pub open spec fn http_code_for(value: u16) -> Option<ErrorCode> {
    if exists|c: ErrorCode| #[trigger] http_status_of(c) == Some(value) {
        Some(choose|c: ErrorCode| #[trigger] http_status_of(c) == Some(value))
    } else {
        None
    }
}

/// The I/O error kind of a code, for the codes of the I/O subset.
pub open spec fn io_kind_of(code: ErrorCode) -> Option<ErrorKind> {
    match code {
        ErrorCode::IoNotFound => Some(ErrorKind::NotFound),
        ErrorCode::IoPermissionDenied => Some(ErrorKind::PermissionDenied),
        ErrorCode::IoConnectionRefused => Some(ErrorKind::ConnectionRefused),
        ErrorCode::IoConnectionReset => Some(ErrorKind::ConnectionReset),
        ErrorCode::IoConnectionAborted => Some(ErrorKind::ConnectionAborted),
        ErrorCode::IoNotConnected => Some(ErrorKind::NotConnected),
        ErrorCode::IoAddrInUse => Some(ErrorKind::AddrInUse),
        ErrorCode::IoAddrNotAvailable => Some(ErrorKind::AddrNotAvailable),
        ErrorCode::IoBrokenPipe => Some(ErrorKind::BrokenPipe),
        ErrorCode::IoAlreadyExists => Some(ErrorKind::AlreadyExists),
        ErrorCode::IoWouldBlock => Some(ErrorKind::WouldBlock),
        ErrorCode::IoInvalidInput => Some(ErrorKind::InvalidInput),
        ErrorCode::IoInvalidData => Some(ErrorKind::InvalidData),
        ErrorCode::IoTimedOut => Some(ErrorKind::TimedOut),
        ErrorCode::IoWriteZero => Some(ErrorKind::WriteZero),
        ErrorCode::IoInterrupted => Some(ErrorKind::Interrupted),
        ErrorCode::IoUnsupported => Some(ErrorKind::Unsupported),
        ErrorCode::IoUnexpectedEof => Some(ErrorKind::UnexpectedEof),
        ErrorCode::IoOutOfMemory => Some(ErrorKind::OutOfMemory),
        ErrorCode::IoOther => Some(ErrorKind::Other),
        _ => None,
    }
}

/// The code whose I/O error kind is `kind`, if there is one.
pub open spec fn io_code_for(kind: ErrorKind) -> Option<ErrorCode> {
    if exists|c: ErrorCode| #[trigger] io_kind_of(c) == Some(kind) {
        Some(choose|c: ErrorCode| #[trigger] io_kind_of(c) == Some(kind))
    } else {
        None
    }
}

/// Every code of the HTTP subset round-trips through its status value, the
/// code found for a value maps back to it, and a value that no code maps to
/// finds no code.
pub proof fn lemma_http_round_trip(code: ErrorCode, value: u16)
    ensures
        http_status_of(code) == Some(value) ==> http_code_for(value) == Some(code),
        http_code_for(value) matches Some(c) ==> http_status_of(c) == Some(value),
        (forall|c: ErrorCode| #[trigger] http_status_of(c) != Some(value)) ==> http_code_for(
            value,
        ) is None,
{
}

/// Every code of the I/O subset round-trips through its kind, the code found
/// for a kind maps back to it, and a kind that no code maps to finds no code.
pub proof fn lemma_io_round_trip(code: ErrorCode, kind: ErrorKind)
    ensures
        io_kind_of(code) == Some(kind) ==> io_code_for(kind) == Some(code),
        io_code_for(kind) matches Some(c) ==> io_kind_of(c) == Some(kind),
        (forall|c: ErrorCode| #[trigger] io_kind_of(c) != Some(kind)) ==> io_code_for(kind) is None,
{
}

impl ErrorCode {
    /// Construct from an HTTP error code value.
    pub fn from_http_value(value: u16) -> (r: Option<Self>)
        ensures
            r == http_code_for(value),
    {
        let code = match value {
            400 => Self::HttpBadRequest,
            401 => Self::HttpUnauthorized,
            402 => Self::HttpPaymentRequired,
            403 => Self::HttpForbidden,
            404 => Self::HttpNotFound,
            405 => Self::HttpMethodNotAllowed,
            406 => Self::HttpNotAcceptable,
            407 => Self::HttpProxyAuthenticationRequired,
            408 => Self::HttpRequestTimeout,
            409 => Self::HttpConflict,
            410 => Self::HttpGone,
            411 => Self::HttpLengthRequired,
            412 => Self::HttpPreconditionFailed,
            413 => Self::HttpPayloadTooLarge,
            414 => Self::HttpUriTooLong,
            415 => Self::HttpUnsupportedMediaType,
            416 => Self::HttpRangeNotSatisfiable,
            417 => Self::HttpExpectationFailed,
            418 => Self::HttpImATeapot,
            421 => Self::HttpMisdirectedRequest,
            422 => Self::HttpUnprocessableEntity,
            423 => Self::HttpLocked,
            424 => Self::HttpFailedDependency,
            425 => Self::HttpTooEarly,
            426 => Self::HttpUpgradeRequired,
            428 => Self::HttpPreconditionRequired,
            429 => Self::HttpTooManyRequests,
            431 => Self::HttpRequestHeaderFieldsTooLarge,
            451 => Self::HttpUnavailableForLegalReasons,
            500 => Self::HttpInternalServerError,
            501 => Self::HttpNotImplemented,
            502 => Self::HttpBadGateway,
            503 => Self::HttpServiceUnavailable,
            504 => Self::HttpGatewayTimeout,
            505 => Self::HttpHttpVersionNotSupported,
            506 => Self::HttpVariantAlsoNegotiates,
            507 => Self::HttpInsufficientStorage,
            508 => Self::HttpLoopDetected,
            510 => Self::HttpNotExtended,
            511 => Self::HttpNetworkAuthenticationRequired,
            _ => {
                assert(forall|c: ErrorCode| #[trigger] http_status_of(c) != Some(value));
                return None;
            },
        };
        assert(http_status_of(code) == Some(value));
        Some(code)
    }

    /// Convert to its corresponding HTTP value, if any.
    pub fn to_http_value(code: ErrorCode) -> (r: Option<u16>)
        ensures
            r == http_status_of(code),
    {
        let value: u16 = match code {
            ErrorCode::HttpBadRequest => 400,
            ErrorCode::HttpUnauthorized => 401,
            ErrorCode::HttpPaymentRequired => 402,
            ErrorCode::HttpForbidden => 403,
            ErrorCode::HttpNotFound => 404,
            ErrorCode::HttpMethodNotAllowed => 405,
            ErrorCode::HttpNotAcceptable => 406,
            ErrorCode::HttpProxyAuthenticationRequired => 407,
            ErrorCode::HttpRequestTimeout => 408,
            ErrorCode::HttpConflict => 409,
            ErrorCode::HttpGone => 410,
            ErrorCode::HttpLengthRequired => 411,
            ErrorCode::HttpPreconditionFailed => 412,
            ErrorCode::HttpPayloadTooLarge => 413,
            ErrorCode::HttpUriTooLong => 414,
            ErrorCode::HttpUnsupportedMediaType => 415,
            ErrorCode::HttpRangeNotSatisfiable => 416,
            ErrorCode::HttpExpectationFailed => 417,
            ErrorCode::HttpImATeapot => 418,
            ErrorCode::HttpMisdirectedRequest => 421,
            ErrorCode::HttpUnprocessableEntity => 422,
            ErrorCode::HttpLocked => 423,
            ErrorCode::HttpFailedDependency => 424,
            ErrorCode::HttpTooEarly => 425,
            ErrorCode::HttpUpgradeRequired => 426,
            ErrorCode::HttpPreconditionRequired => 428,
            ErrorCode::HttpTooManyRequests => 429,
            ErrorCode::HttpRequestHeaderFieldsTooLarge => 431,
            ErrorCode::HttpUnavailableForLegalReasons => 451,
            ErrorCode::HttpInternalServerError => 500,
            ErrorCode::HttpNotImplemented => 501,
            ErrorCode::HttpBadGateway => 502,
            ErrorCode::HttpServiceUnavailable => 503,
            ErrorCode::HttpGatewayTimeout => 504,
            ErrorCode::HttpHttpVersionNotSupported => 505,
            ErrorCode::HttpVariantAlsoNegotiates => 506,
            ErrorCode::HttpInsufficientStorage => 507,
            ErrorCode::HttpLoopDetected => 508,
            ErrorCode::HttpNotExtended => 510,
            ErrorCode::HttpNetworkAuthenticationRequired => 511,
            _ => return None,
        };
        Some(value)
    }

    /// Construct from an IO error kind.
    pub fn from_io_kind(kind: ErrorKind) -> (r: Option<Self>)
        ensures
            r == io_code_for(kind),
    {
        let code = match kind {
            ErrorKind::NotFound => Self::IoNotFound,
            ErrorKind::PermissionDenied => Self::IoPermissionDenied,
            ErrorKind::ConnectionRefused => Self::IoConnectionRefused,
            ErrorKind::ConnectionReset => Self::IoConnectionReset,
            ErrorKind::ConnectionAborted => Self::IoConnectionAborted,
            ErrorKind::NotConnected => Self::IoNotConnected,
            ErrorKind::AddrInUse => Self::IoAddrInUse,
            ErrorKind::AddrNotAvailable => Self::IoAddrNotAvailable,
            ErrorKind::BrokenPipe => Self::IoBrokenPipe,
            ErrorKind::AlreadyExists => Self::IoAlreadyExists,
            ErrorKind::WouldBlock => Self::IoWouldBlock,
            ErrorKind::InvalidInput => Self::IoInvalidInput,
            ErrorKind::InvalidData => Self::IoInvalidData,
            ErrorKind::TimedOut => Self::IoTimedOut,
            ErrorKind::WriteZero => Self::IoWriteZero,
            ErrorKind::Interrupted => Self::IoInterrupted,
            ErrorKind::Unsupported => Self::IoUnsupported,
            ErrorKind::UnexpectedEof => Self::IoUnexpectedEof,
            ErrorKind::OutOfMemory => Self::IoOutOfMemory,
            ErrorKind::Other => Self::IoOther,
            _ => {
                assert(forall|c: ErrorCode| #[trigger] io_kind_of(c) != Some(kind));
                return None;
            },
        };
        assert(io_kind_of(code) == Some(kind));
        Some(code)
    }

    /// Convert to its corresponding `std::io::ErrorKind`, if any.
    pub fn to_io_kind(self) -> (r: Option<ErrorKind>)
        ensures
            r == io_kind_of(self),
    {
        let kind = match self {
            Self::IoNotFound => ErrorKind::NotFound,
            Self::IoPermissionDenied => ErrorKind::PermissionDenied,
            Self::IoConnectionRefused => ErrorKind::ConnectionRefused,
            Self::IoConnectionReset => ErrorKind::ConnectionReset,
            Self::IoConnectionAborted => ErrorKind::ConnectionAborted,
            Self::IoNotConnected => ErrorKind::NotConnected,
            Self::IoAddrInUse => ErrorKind::AddrInUse,
            Self::IoAddrNotAvailable => ErrorKind::AddrNotAvailable,
            Self::IoBrokenPipe => ErrorKind::BrokenPipe,
            Self::IoAlreadyExists => ErrorKind::AlreadyExists,
            Self::IoWouldBlock => ErrorKind::WouldBlock,
            Self::IoInvalidInput => ErrorKind::InvalidInput,
            Self::IoInvalidData => ErrorKind::InvalidData,
            Self::IoTimedOut => ErrorKind::TimedOut,
            Self::IoWriteZero => ErrorKind::WriteZero,
            Self::IoInterrupted => ErrorKind::Interrupted,
            Self::IoUnsupported => ErrorKind::Unsupported,
            Self::IoUnexpectedEof => ErrorKind::UnexpectedEof,
            Self::IoOutOfMemory => ErrorKind::OutOfMemory,
            Self::IoOther => ErrorKind::Other,
            _ => return None,
        };
        Some(kind)
    }
}

} // verus!
