use vstd::prelude::*;

verus! {

/// A SIP response status code, with the named variants of RFC 3261 and a
/// catch-all variant for any other numeric code.
#[derive(Clone, Copy, Debug, PartialEq, Eq, Structural)]
pub enum StatusCode {
    Trying,
    Ringing,
    CallIsBeingForwarded,
    Queued,
    SessionProgress,
    EarlyDialogTerminated,
    OK,
    Accepted,
    NoNotification,
    MultipleChoices,
    MovedPermanently,
    MovedTemporarily,
    UseProxy,
    AlternativeService,
    BadRequest,
    Unauthorized,
    PaymentRequired,
    Forbidden,
    NotFound,
    MethodNotAllowed,
    NotAcceptable,
    ProxyAuthenticationRequired,
    RequestTimeout,
    Conflict,
    Gone,
    LengthRequired,
    ConditionalRequestFailed,
    RequestEntityTooLarge,
    RequestURITooLong,
    UnsupportedMediaType,
    UnsupportedURIScheme,
    UnknownResourcePriority,
    BadExtension,
    ExtensionRequired,
    SessionIntervalTooSmall,
    IntervalTooBrief,
    BadLocationInformation,
    UseIdentityHeader,
    ProvideReferrerIdentity,
    AnonymityDisallowed,
    BadIdentityInfo,
    UnsupportedCertificate,
    InvalidIdentityHeader,
    FirstHopLacksOutboundSupport,
    MaxBreadthExceeded,
    BadInfoPackage,
    ConsentNeeded,
    TemporarilyUnavailable,
    CallTransactionDoesNotExist,
    LoopDetected,
    TooManyHops,
    AddressIncomplete,
    Ambiguous,
    BusyHere,
    RequestTerminated,
    NotAcceptableHere,
    BadEvent,
    RequestPending,
    Undecipherable,
    SecurityAgreementRequired,
    ServerInternalError,
    NotImplemented,
    BadGateway,
    ServiceUnavailable,
    ServerTimeOut,
    VersionNotSupported,
    MessageTooLarge,
    PreconditionFailure,
    BusyEverywhere,
    Decline,
    DoesNotExistAnywhere,
    NotAcceptableGlobal,
    Unwanted,
    Other(u16),
}

/// The broad class of a status code, by its hundreds digit.
#[derive(Clone, Copy, Debug, PartialEq, Eq, Structural)]
pub enum StatusCodeKind {
    Provisional,
    Successful,
    Redirection,
    RequestFailure,
    ServerFailure,
    GlobalFailure,
    Other,
}

/// The numeric value of a status code.
pub open spec fn spec_code(sc: StatusCode) -> u16 {
    match sc {
        StatusCode::Trying => 100,
        StatusCode::Ringing => 180,
        StatusCode::CallIsBeingForwarded => 181,
        StatusCode::Queued => 182,
        StatusCode::SessionProgress => 183,
        StatusCode::EarlyDialogTerminated => 199,
        StatusCode::OK => 200,
        StatusCode::Accepted => 201,
        StatusCode::NoNotification => 204,
        StatusCode::MultipleChoices => 300,
        StatusCode::MovedPermanently => 301,
        StatusCode::MovedTemporarily => 302,
        StatusCode::UseProxy => 305,
        StatusCode::AlternativeService => 380,
        StatusCode::BadRequest => 400,
        StatusCode::Unauthorized => 401,
        StatusCode::PaymentRequired => 402,
        StatusCode::Forbidden => 403,
        StatusCode::NotFound => 404,
        StatusCode::MethodNotAllowed => 405,
        StatusCode::NotAcceptable => 406,
        StatusCode::ProxyAuthenticationRequired => 407,
        StatusCode::RequestTimeout => 408,
        StatusCode::Conflict => 409,
        StatusCode::Gone => 410,
        StatusCode::LengthRequired => 411,
        StatusCode::ConditionalRequestFailed => 412,
        StatusCode::RequestEntityTooLarge => 413,
        StatusCode::RequestURITooLong => 414,
        StatusCode::UnsupportedMediaType => 415,
        StatusCode::UnsupportedURIScheme => 416,
        StatusCode::UnknownResourcePriority => 417,
        StatusCode::BadExtension => 420,
        StatusCode::ExtensionRequired => 421,
        StatusCode::SessionIntervalTooSmall => 422,
        StatusCode::IntervalTooBrief => 423,
        StatusCode::BadLocationInformation => 424,
        StatusCode::UseIdentityHeader => 428,
        StatusCode::ProvideReferrerIdentity => 429,
        StatusCode::AnonymityDisallowed => 433,
        StatusCode::BadIdentityInfo => 436,
        StatusCode::UnsupportedCertificate => 437,
        StatusCode::InvalidIdentityHeader => 438,
        StatusCode::FirstHopLacksOutboundSupport => 439,
        StatusCode::MaxBreadthExceeded => 440,
        StatusCode::BadInfoPackage => 469,
        StatusCode::ConsentNeeded => 470,
        StatusCode::TemporarilyUnavailable => 480,
        StatusCode::CallTransactionDoesNotExist => 481,
        StatusCode::LoopDetected => 482,
        StatusCode::TooManyHops => 483,
        StatusCode::AddressIncomplete => 484,
        StatusCode::Ambiguous => 485,
        StatusCode::BusyHere => 486,
        StatusCode::RequestTerminated => 487,
        StatusCode::NotAcceptableHere => 488,
        StatusCode::BadEvent => 489,
        StatusCode::RequestPending => 491,
        StatusCode::Undecipherable => 493,
        StatusCode::SecurityAgreementRequired => 494,
        StatusCode::ServerInternalError => 500,
        StatusCode::NotImplemented => 501,
        StatusCode::BadGateway => 502,
        StatusCode::ServiceUnavailable => 503,
        StatusCode::ServerTimeOut => 504,
        StatusCode::VersionNotSupported => 505,
        StatusCode::MessageTooLarge => 513,
        StatusCode::PreconditionFailure => 580,
        StatusCode::BusyEverywhere => 600,
        StatusCode::Decline => 603,
        StatusCode::DoesNotExistAnywhere => 604,
        StatusCode::NotAcceptableGlobal => 606,
        StatusCode::Unwanted => 607,
        StatusCode::Other(code) => code,
    }
}

/// The status code named by a numeric value; numbers without a named
/// variant map to `Other`.
pub open spec fn spec_from_code(code: u16) -> StatusCode {
    match code {
        100 => StatusCode::Trying,
        180 => StatusCode::Ringing,
        181 => StatusCode::CallIsBeingForwarded,
        182 => StatusCode::Queued,
        183 => StatusCode::SessionProgress,
        199 => StatusCode::EarlyDialogTerminated,
        200 => StatusCode::OK,
        201 => StatusCode::Accepted,
        204 => StatusCode::NoNotification,
        300 => StatusCode::MultipleChoices,
        301 => StatusCode::MovedPermanently,
        302 => StatusCode::MovedTemporarily,
        305 => StatusCode::UseProxy,
        380 => StatusCode::AlternativeService,
        400 => StatusCode::BadRequest,
        401 => StatusCode::Unauthorized,
        402 => StatusCode::PaymentRequired,
        403 => StatusCode::Forbidden,
        404 => StatusCode::NotFound,
        405 => StatusCode::MethodNotAllowed,
        406 => StatusCode::NotAcceptable,
        407 => StatusCode::ProxyAuthenticationRequired,
        408 => StatusCode::RequestTimeout,
        409 => StatusCode::Conflict,
        410 => StatusCode::Gone,
        411 => StatusCode::LengthRequired,
        412 => StatusCode::ConditionalRequestFailed,
        413 => StatusCode::RequestEntityTooLarge,
        414 => StatusCode::RequestURITooLong,
        415 => StatusCode::UnsupportedMediaType,
        416 => StatusCode::UnsupportedURIScheme,
        417 => StatusCode::UnknownResourcePriority,
        420 => StatusCode::BadExtension,
        421 => StatusCode::ExtensionRequired,
        422 => StatusCode::SessionIntervalTooSmall,
        423 => StatusCode::IntervalTooBrief,
        424 => StatusCode::BadLocationInformation,
        428 => StatusCode::UseIdentityHeader,
        429 => StatusCode::ProvideReferrerIdentity,
        433 => StatusCode::AnonymityDisallowed,
        436 => StatusCode::BadIdentityInfo,
        437 => StatusCode::UnsupportedCertificate,
        438 => StatusCode::InvalidIdentityHeader,
        439 => StatusCode::FirstHopLacksOutboundSupport,
        440 => StatusCode::MaxBreadthExceeded,
        469 => StatusCode::BadInfoPackage,
        470 => StatusCode::ConsentNeeded,
        480 => StatusCode::TemporarilyUnavailable,
        481 => StatusCode::CallTransactionDoesNotExist,
        482 => StatusCode::LoopDetected,
        483 => StatusCode::TooManyHops,
        484 => StatusCode::AddressIncomplete,
        485 => StatusCode::Ambiguous,
        486 => StatusCode::BusyHere,
        487 => StatusCode::RequestTerminated,
        488 => StatusCode::NotAcceptableHere,
        489 => StatusCode::BadEvent,
        491 => StatusCode::RequestPending,
        493 => StatusCode::Undecipherable,
        494 => StatusCode::SecurityAgreementRequired,
        500 => StatusCode::ServerInternalError,
        501 => StatusCode::NotImplemented,
        502 => StatusCode::BadGateway,
        503 => StatusCode::ServiceUnavailable,
        504 => StatusCode::ServerTimeOut,
        505 => StatusCode::VersionNotSupported,
        513 => StatusCode::MessageTooLarge,
        580 => StatusCode::PreconditionFailure,
        600 => StatusCode::BusyEverywhere,
        603 => StatusCode::Decline,
        604 => StatusCode::DoesNotExistAnywhere,
        606 => StatusCode::NotAcceptableGlobal,
        607 => StatusCode::Unwanted,
        _ => StatusCode::Other(code),
    }
}

impl StatusCode {
    /// The numeric value of this status code.
    pub fn code(&self) -> (r: u16)
        ensures
            r == spec_code(*self),
    {
        match self {
            StatusCode::Trying => 100,
            StatusCode::Ringing => 180,
            StatusCode::CallIsBeingForwarded => 181,
            StatusCode::Queued => 182,
            StatusCode::SessionProgress => 183,
            StatusCode::EarlyDialogTerminated => 199,
            StatusCode::OK => 200,
            StatusCode::Accepted => 201,
            StatusCode::NoNotification => 204,
            StatusCode::MultipleChoices => 300,
            StatusCode::MovedPermanently => 301,
            StatusCode::MovedTemporarily => 302,
            StatusCode::UseProxy => 305,
            StatusCode::AlternativeService => 380,
            StatusCode::BadRequest => 400,
            StatusCode::Unauthorized => 401,
            StatusCode::PaymentRequired => 402,
            StatusCode::Forbidden => 403,
            StatusCode::NotFound => 404,
            StatusCode::MethodNotAllowed => 405,
            StatusCode::NotAcceptable => 406,
            StatusCode::ProxyAuthenticationRequired => 407,
            StatusCode::RequestTimeout => 408,
            StatusCode::Conflict => 409,
            StatusCode::Gone => 410,
            StatusCode::LengthRequired => 411,
            StatusCode::ConditionalRequestFailed => 412,
            StatusCode::RequestEntityTooLarge => 413,
            StatusCode::RequestURITooLong => 414,
            StatusCode::UnsupportedMediaType => 415,
            StatusCode::UnsupportedURIScheme => 416,
            StatusCode::UnknownResourcePriority => 417,
            StatusCode::BadExtension => 420,
            StatusCode::ExtensionRequired => 421,
            StatusCode::SessionIntervalTooSmall => 422,
            StatusCode::IntervalTooBrief => 423,
            StatusCode::BadLocationInformation => 424,
            StatusCode::UseIdentityHeader => 428,
            StatusCode::ProvideReferrerIdentity => 429,
            StatusCode::AnonymityDisallowed => 433,
            StatusCode::BadIdentityInfo => 436,
            StatusCode::UnsupportedCertificate => 437,
            StatusCode::InvalidIdentityHeader => 438,
            StatusCode::FirstHopLacksOutboundSupport => 439,
            StatusCode::MaxBreadthExceeded => 440,
            StatusCode::BadInfoPackage => 469,
            StatusCode::ConsentNeeded => 470,
            StatusCode::TemporarilyUnavailable => 480,
            StatusCode::CallTransactionDoesNotExist => 481,
            StatusCode::LoopDetected => 482,
            StatusCode::TooManyHops => 483,
            StatusCode::AddressIncomplete => 484,
            StatusCode::Ambiguous => 485,
            StatusCode::BusyHere => 486,
            StatusCode::RequestTerminated => 487,
            StatusCode::NotAcceptableHere => 488,
            StatusCode::BadEvent => 489,
            StatusCode::RequestPending => 491,
            StatusCode::Undecipherable => 493,
            StatusCode::SecurityAgreementRequired => 494,
            StatusCode::ServerInternalError => 500,
            StatusCode::NotImplemented => 501,
            StatusCode::BadGateway => 502,
            StatusCode::ServiceUnavailable => 503,
            StatusCode::ServerTimeOut => 504,
            StatusCode::VersionNotSupported => 505,
            StatusCode::MessageTooLarge => 513,
            StatusCode::PreconditionFailure => 580,
            StatusCode::BusyEverywhere => 600,
            StatusCode::Decline => 603,
            StatusCode::DoesNotExistAnywhere => 604,
            StatusCode::NotAcceptableGlobal => 606,
            StatusCode::Unwanted => 607,
            StatusCode::Other(code) => *code,
        }
    }

    /// The class of this status code.
    pub fn kind(&self) -> (r: StatusCodeKind)
        ensures
            r == spec_kind(*self),
    {
        let code = self.code();
        if 100 <= code && code <= 199 {
            StatusCodeKind::Provisional
        } else if 200 <= code && code <= 299 {
            StatusCodeKind::Successful
        } else if 300 <= code && code <= 399 {
            StatusCodeKind::Redirection
        } else if 400 <= code && code <= 499 {
            StatusCodeKind::RequestFailure
        } else if 500 <= code && code <= 599 {
            StatusCodeKind::ServerFailure
        } else if 600 <= code && code <= 699 {
            StatusCodeKind::GlobalFailure
        } else {
            StatusCodeKind::Other
        }
    }
}

/// The class of a status code, by the range its numeric value falls in.
pub open spec fn spec_kind(sc: StatusCode) -> StatusCodeKind {
    let code = spec_code(sc);
    if 100 <= code && code <= 199 {
        StatusCodeKind::Provisional
    } else if 200 <= code && code <= 299 {
        StatusCodeKind::Successful
    } else if 300 <= code && code <= 399 {
        StatusCodeKind::Redirection
    } else if 400 <= code && code <= 499 {
        StatusCodeKind::RequestFailure
    } else if 500 <= code && code <= 599 {
        StatusCodeKind::ServerFailure
    } else if 600 <= code && code <= 699 {
        StatusCodeKind::GlobalFailure
    } else {
        StatusCodeKind::Other
    }
}

/// A provisional (1xx) status code.
pub open spec fn is_provisional(sc: StatusCode) -> bool {
    100 <= spec_code(sc) <= 199
}

/// A successful (2xx) status code.
pub open spec fn is_successful(sc: StatusCode) -> bool {
    200 <= spec_code(sc) <= 299
}

/// A final status code other than 2xx (3xx through 6xx).
pub open spec fn is_failure_final(sc: StatusCode) -> bool {
    300 <= spec_code(sc) <= 699
}

impl vstd::std_specs::convert::FromSpecImpl<u16> for StatusCode {
    open spec fn obeys_from_spec() -> bool {
        true
    }

    open spec fn from_spec(code: u16) -> StatusCode {
        spec_from_code(code)
    }
}

impl From<u16> for StatusCode {
    /// The status code named by a numeric value.
    fn from(code: u16) -> (r: StatusCode)
        ensures
            r == spec_from_code(code),
    {
        match code {
            100 => StatusCode::Trying,
            180 => StatusCode::Ringing,
            181 => StatusCode::CallIsBeingForwarded,
            182 => StatusCode::Queued,
            183 => StatusCode::SessionProgress,
            199 => StatusCode::EarlyDialogTerminated,
            200 => StatusCode::OK,
            201 => StatusCode::Accepted,
            204 => StatusCode::NoNotification,
            300 => StatusCode::MultipleChoices,
            301 => StatusCode::MovedPermanently,
            302 => StatusCode::MovedTemporarily,
            305 => StatusCode::UseProxy,
            380 => StatusCode::AlternativeService,
            400 => StatusCode::BadRequest,
            401 => StatusCode::Unauthorized,
            402 => StatusCode::PaymentRequired,
            403 => StatusCode::Forbidden,
            404 => StatusCode::NotFound,
            405 => StatusCode::MethodNotAllowed,
            406 => StatusCode::NotAcceptable,
            407 => StatusCode::ProxyAuthenticationRequired,
            408 => StatusCode::RequestTimeout,
            409 => StatusCode::Conflict,
            410 => StatusCode::Gone,
            411 => StatusCode::LengthRequired,
            412 => StatusCode::ConditionalRequestFailed,
            413 => StatusCode::RequestEntityTooLarge,
            414 => StatusCode::RequestURITooLong,
            415 => StatusCode::UnsupportedMediaType,
            416 => StatusCode::UnsupportedURIScheme,
            417 => StatusCode::UnknownResourcePriority,
            420 => StatusCode::BadExtension,
            421 => StatusCode::ExtensionRequired,
            422 => StatusCode::SessionIntervalTooSmall,
            423 => StatusCode::IntervalTooBrief,
            424 => StatusCode::BadLocationInformation,
            428 => StatusCode::UseIdentityHeader,
            429 => StatusCode::ProvideReferrerIdentity,
            433 => StatusCode::AnonymityDisallowed,
            436 => StatusCode::BadIdentityInfo,
            437 => StatusCode::UnsupportedCertificate,
            438 => StatusCode::InvalidIdentityHeader,
            439 => StatusCode::FirstHopLacksOutboundSupport,
            440 => StatusCode::MaxBreadthExceeded,
            469 => StatusCode::BadInfoPackage,
            470 => StatusCode::ConsentNeeded,
            480 => StatusCode::TemporarilyUnavailable,
            481 => StatusCode::CallTransactionDoesNotExist,
            482 => StatusCode::LoopDetected,
            483 => StatusCode::TooManyHops,
            484 => StatusCode::AddressIncomplete,
            485 => StatusCode::Ambiguous,
            486 => StatusCode::BusyHere,
            487 => StatusCode::RequestTerminated,
            488 => StatusCode::NotAcceptableHere,
            489 => StatusCode::BadEvent,
            491 => StatusCode::RequestPending,
            493 => StatusCode::Undecipherable,
            494 => StatusCode::SecurityAgreementRequired,
            500 => StatusCode::ServerInternalError,
            501 => StatusCode::NotImplemented,
            502 => StatusCode::BadGateway,
            503 => StatusCode::ServiceUnavailable,
            504 => StatusCode::ServerTimeOut,
            505 => StatusCode::VersionNotSupported,
            513 => StatusCode::MessageTooLarge,
            580 => StatusCode::PreconditionFailure,
            600 => StatusCode::BusyEverywhere,
            603 => StatusCode::Decline,
            604 => StatusCode::DoesNotExistAnywhere,
            606 => StatusCode::NotAcceptableGlobal,
            607 => StatusCode::Unwanted,
            _ => StatusCode::Other(code),
        }
    }
}

impl Default for StatusCode {
    /// The default status code, 200 OK.
    fn default() -> (r: Self)
        ensures
            r == StatusCode::OK,
    {
        StatusCode::OK
    }
}

/// Reading the named variant of a numeric value and taking its numeric value
/// again returns the starting number, for every `u16`.
pub proof fn lemma_code_round_trip(code: u16)
    ensures
        spec_code(spec_from_code(code)) == code,
{
}

} // verus!
