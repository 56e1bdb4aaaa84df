//! The eight kinds of failure that a [`crate::TwilioErr`] can own, and what
//! each of them reports as its own source.
//!
//! The failure types belong to std and to the `http`, `hyper`, `serde_json`
//! and `typed_headers` crates. The verifier carries their values through
//! without looking inside. What is said here of their `source` methods is
//! taken on trust from those crates.

use vstd::prelude::*;

verus! {

/// Declares `std::io::Error`, the failure of local input or output, as a
/// value that the verifier carries and does not look into.
#[verifier::external_type_specification]
#[verifier::external_body]
pub struct ExIoError(std::io::Error);

/// Declares `http::uri::InvalidUri`, the failure to parse a URI, as a value
/// that the verifier carries and does not look into.
#[verifier::external_type_specification]
#[verifier::external_body]
pub struct ExInvalidUri(http::uri::InvalidUri);

/// Declares `hyper::Error`, the failure of the HTTP transport, as a value
/// that the verifier carries and does not look into.
#[verifier::external_type_specification]
#[verifier::external_body]
pub struct ExHyperError(hyper::Error);

/// Declares `serde_json::Error`, the failure to encode or decode JSON, as a
/// value that the verifier carries and does not look into.
#[verifier::external_type_specification]
#[verifier::external_body]
pub struct ExSerdeJsonError(serde_json::Error);

/// Declares `std::cell::BorrowMutError`, the failure to borrow a `RefCell`
/// mutably, as a value that the verifier carries and does not look into.
#[verifier::external_type_specification]
#[verifier::external_body]
pub struct ExBorrowMutError(std::cell::BorrowMutError);

/// Declares `std::string::FromUtf8Error`, the failure to read bytes as UTF-8,
/// as a value that the verifier carries and does not look into.
#[verifier::external_type_specification]
#[verifier::external_body]
pub struct ExFromUtf8Error(std::string::FromUtf8Error);

/// Declares `http::Error`, the failure to build a request, as a value that
/// the verifier carries and does not look into.
#[verifier::external_type_specification]
#[verifier::external_body]
pub struct ExHttpError(http::Error);

/// Declares `typed_headers::Error`, the failure to build or read a typed
/// header, as a value that the verifier carries and does not look into.
#[verifier::external_type_specification]
#[verifier::external_body]
pub struct ExHeaderError(typed_headers::Error);

/// A borrowed error that some failure names as its source.
///
/// The verifier has no type for a trait object of `std::error::Error`, so the
/// reference travels in this struct, whose body the verifier does not read.
/// The field is public: `source.0` is the error itself.
#[verifier::external_body]
#[derive(Debug)]
pub struct SourceRef<'a>(pub &'a (dyn std::error::Error + 'static));

/// What `std::error::Error::source` answers for an `std::io::Error`.
pub uninterp spec fn io_error_source(e: std::io::Error) -> Option<SourceRef<'static>>;

/// What `std::error::Error::source` answers for a `hyper::Error`.
pub uninterp spec fn hyper_error_source(e: hyper::Error) -> Option<SourceRef<'static>>;

/// What `std::error::Error::source` answers for a `serde_json::Error`.
pub uninterp spec fn serde_json_error_source(e: serde_json::Error) -> Option<SourceRef<'static>>;

/// What `std::error::Error::source` answers for an `std::cell::BorrowMutError`.
pub uninterp spec fn borrow_mut_error_source(e: std::cell::BorrowMutError) -> Option<
    SourceRef<'static>,
>;

/// What `std::error::Error::source` answers for an `std::string::FromUtf8Error`.
pub uninterp spec fn from_utf8_error_source(e: std::string::FromUtf8Error) -> Option<
    SourceRef<'static>,
>;

/// Calls `source` of `std::error::Error` on an `std::io::Error`.
///
/// Trusted: the answer depends on the error alone, so the same error gives
/// the same answer each time. std does not document what the answer is, and
/// nothing more is said of it here.
#[verifier::external_body]
pub(crate) fn source_of_io_error(e: &std::io::Error) -> (r: Option<SourceRef<'_>>)
    ensures
        r == io_error_source(*e),
{
    match std::error::Error::source(e) {
        Some(s) => Some(SourceRef(s)),
        None => None,
    }
}

/// Calls `source` of `std::error::Error` on an `http::uri::InvalidUri`.
///
/// Trusted: there is never a source. `InvalidUri` implements the trait
/// without a `source` of its own, and the trait's provided one answers `None`.
#[verifier::external_body]
pub(crate) fn source_of_invalid_uri(e: &http::uri::InvalidUri) -> (r: Option<SourceRef<'_>>)
    ensures
        r is None,
{
    match std::error::Error::source(e) {
        Some(s) => Some(SourceRef(s)),
        None => None,
    }
}

/// Calls `source` of `std::error::Error` on a `hyper::Error`.
///
/// Trusted: the answer depends on the error alone, so the same error gives
/// the same answer each time. In hyper it is the cause that the error was
/// built with, if it was built with one; which errors have one is not said
/// here.
#[verifier::external_body]
pub(crate) fn source_of_hyper_error(e: &hyper::Error) -> (r: Option<SourceRef<'_>>)
    ensures
        r == hyper_error_source(*e),
{
    match std::error::Error::source(e) {
        Some(s) => Some(SourceRef(s)),
        None => None,
    }
}

/// Calls `source` of `std::error::Error` on a `serde_json::Error`.
///
/// Trusted: the answer depends on the error alone, so the same error gives
/// the same answer each time. In serde_json an error that wraps an I/O
/// failure answers with that failure's source, and any other with `None`;
/// which errors wrap one is not said here.
#[verifier::external_body]
pub(crate) fn source_of_serde_json_error(e: &serde_json::Error) -> (r: Option<SourceRef<'_>>)
    ensures
        r == serde_json_error_source(*e),
{
    match std::error::Error::source(e) {
        Some(s) => Some(SourceRef(s)),
        None => None,
    }
}

/// Calls `source` of `std::error::Error` on an `std::cell::BorrowMutError`.
///
/// Trusted: the answer depends on the error alone, so the same error gives
/// the same answer each time. std does not document what the answer is, and
/// nothing more is said of it here.
#[verifier::external_body]
pub(crate) fn source_of_borrow_mut_error(e: &std::cell::BorrowMutError) -> (r: Option<
    SourceRef<'_>,
>)
    ensures
        r == borrow_mut_error_source(*e),
{
    match std::error::Error::source(e) {
        Some(s) => Some(SourceRef(s)),
        None => None,
    }
}

/// Calls `source` of `std::error::Error` on an `std::string::FromUtf8Error`.
///
/// Trusted: the answer depends on the error alone, so the same error gives
/// the same answer each time. std does not document what the answer is, and
/// nothing more is said of it here.
#[verifier::external_body]
pub(crate) fn source_of_from_utf8_error(e: &std::string::FromUtf8Error) -> (r: Option<
    SourceRef<'_>,
>)
    ensures
        r == from_utf8_error_source(*e),
{
    match std::error::Error::source(e) {
        Some(s) => Some(SourceRef(s)),
        None => None,
    }
}

/// Calls `source` of `std::error::Error` on an `http::Error`.
///
/// Trusted: there is never a source. `http::Error` hands the question to the
/// error it wraps (an invalid status code, method, URI, URI parts, header
/// name or header value, or a header map that is full), and each of those
/// implements the trait without a `source` of its own.
#[verifier::external_body]
pub(crate) fn source_of_http_error(e: &http::Error) -> (r: Option<SourceRef<'_>>)
    ensures
        r is None,
{
    match std::error::Error::source(e) {
        Some(s) => Some(SourceRef(s)),
        None => None,
    }
}

/// Calls `source` of `std::error::Error` on a `typed_headers::Error`.
///
/// Trusted: there is never a source. `typed_headers::Error` implements the
/// trait without a `source` of its own, and the trait's provided one answers
/// `None`.
#[verifier::external_body]
pub(crate) fn source_of_header_error(e: &typed_headers::Error) -> (r: Option<SourceRef<'_>>)
    ensures
        r is None,
{
    match std::error::Error::source(e) {
        Some(s) => Some(SourceRef(s)),
        None => None,
    }
}

} // verus!
