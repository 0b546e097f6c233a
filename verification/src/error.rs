//! The transport-failure classifier.
//!
//! A send failure carries exactly one structured root cause. The classifier
//! maps each root cause into a small taxonomy relevant to a caller's retry
//! policy: I/O failures, timeouts, and everything else. Classification is
//! pure, total and deterministic: it looks only at the cause tag.

use vstd::prelude::*;

verus! {

/// The fixed enumeration of root causes that a send failure can carry.
///
/// `Unlisted` stands for any cause outside the known set (including causes a
/// future host revision may add); the classifier puts it in the default
/// bucket. `BufferSizeExceeded` is listed on its own because the poll-driven
/// transport deliberately classifies it as `Other` rather than as an I/O
/// failure.
#[derive(Clone, Copy, PartialEq, Eq, Structural, Debug)]
pub enum RootCause {
    DnsError,
    DnsTimeout,
    ConnectionRefused,
    ConnectionTerminated,
    ConnectionLimitReached,
    ConnectionTimeout,
    TlsProtocolError,
    TlsAlertReceived,
    TlsConfigurationError,
    HttpIncompleteResponse,
    HttpResponseHeaderSectionTooLarge,
    HttpResponseBodyTooLarge,
    HttpResponseTimeout,
    HttpProtocolError,
    BufferSizeExceeded,
    Unlisted,
}

/// A structured transport failure: exactly one root cause.
#[derive(Clone, Copy, PartialEq, Eq, Structural, Debug)]
pub struct SendFailure {
    pub cause: RootCause,
}

/// The three-way taxonomy the classifier maps into.
#[derive(Clone, Copy, PartialEq, Eq, Structural, Debug)]
pub enum ErrorClass {
    IoFailure,
    Timeout,
    Other,
}

/// The classification table: which class each root cause falls into.
pub open spec fn spec_classify(cause: RootCause) -> ErrorClass {
    match cause {
        RootCause::DnsError
        | RootCause::ConnectionRefused
        | RootCause::ConnectionTerminated
        | RootCause::ConnectionLimitReached
        | RootCause::TlsProtocolError
        | RootCause::TlsAlertReceived
        | RootCause::TlsConfigurationError
        | RootCause::HttpIncompleteResponse
        | RootCause::HttpResponseHeaderSectionTooLarge
        | RootCause::HttpResponseBodyTooLarge
        | RootCause::HttpProtocolError => ErrorClass::IoFailure,
        RootCause::DnsTimeout
        | RootCause::ConnectionTimeout
        | RootCause::HttpResponseTimeout => ErrorClass::Timeout,
        RootCause::BufferSizeExceeded | RootCause::Unlisted => ErrorClass::Other,
    }
}

/// Maps a send failure's root cause into the three-way taxonomy.
pub fn classify(failure: &SendFailure) -> (class: ErrorClass)
    ensures
        class == spec_classify(failure.cause),
{
    match failure.cause {
        RootCause::DnsError
        | RootCause::ConnectionRefused
        | RootCause::ConnectionTerminated
        | RootCause::ConnectionLimitReached
        | RootCause::TlsProtocolError
        | RootCause::TlsAlertReceived
        | RootCause::TlsConfigurationError
        | RootCause::HttpIncompleteResponse
        | RootCause::HttpResponseHeaderSectionTooLarge
        | RootCause::HttpResponseBodyTooLarge
        | RootCause::HttpProtocolError => ErrorClass::IoFailure,
        RootCause::DnsTimeout
        | RootCause::ConnectionTimeout
        | RootCause::HttpResponseTimeout => ErrorClass::Timeout,
        RootCause::BufferSizeExceeded | RootCause::Unlisted => ErrorClass::Other,
    }
}

/// Whether a root cause is one of the three timeout-flavoured causes.
pub open spec fn is_timeout_cause(cause: RootCause) -> bool {
    cause == RootCause::DnsTimeout || cause == RootCause::ConnectionTimeout
        || cause == RootCause::HttpResponseTimeout
}

/// Whether a root cause names a connection, TLS, protocol or size-limit
/// problem: the causes a caller's retry policy may treat as a plain I/O error.
pub open spec fn is_io_cause(cause: RootCause) -> bool {
    cause == RootCause::DnsError || cause == RootCause::ConnectionRefused
        || cause == RootCause::ConnectionTerminated || cause == RootCause::ConnectionLimitReached
        || cause == RootCause::TlsProtocolError || cause == RootCause::TlsAlertReceived
        || cause == RootCause::TlsConfigurationError || cause == RootCause::HttpIncompleteResponse
        || cause == RootCause::HttpResponseHeaderSectionTooLarge
        || cause == RootCause::HttpResponseBodyTooLarge || cause == RootCause::HttpProtocolError
}

/// Classification is total and matches the table exactly: every root cause
/// falls into exactly one of the three classes; a cause lands in `Timeout`
/// precisely when it is timeout-flavoured, in `IoFailure` precisely when it
/// names an I/O problem, and in `Other` otherwise.
pub proof fn lemma_classify_total(cause: RootCause)
    ensures
        spec_classify(cause) == ErrorClass::IoFailure || spec_classify(cause)
            == ErrorClass::Timeout || spec_classify(cause) == ErrorClass::Other,
        spec_classify(cause) == ErrorClass::Timeout <==> is_timeout_cause(cause),
        spec_classify(cause) == ErrorClass::IoFailure <==> is_io_cause(cause),
        spec_classify(cause) == ErrorClass::Other <==> !is_timeout_cause(cause) && !is_io_cause(
            cause,
        ),
{
}

} // verus!
