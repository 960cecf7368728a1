use vstd::prelude::*;
use vstd::std_specs::convert::FromSpecImpl;
use crate::sourcemap_error::{SourceMapError, SourceMapErrorType};

verus! {

/// The failure of the VLQ decoder, `vlq::Error`, with its three variants.
#[verifier::external_type_specification]
pub struct ExVlqError(vlq::Error);

/// The failure of a byte stream, `std::io::Error`. Nothing is read from it.
#[verifier::external_type_specification]
#[verifier::external_body]
pub struct ExIoError(std::io::Error);

/// The failure of the buffer serializer, `rkyv::Unreachable`. Nothing is read
/// from it.
#[verifier::external_type_specification]
#[verifier::external_body]
pub struct ExUnreachable(rkyv::Unreachable);

/// The failure of a text decoder, `std::string::FromUtf8Error`. Nothing is
/// read from it.
#[verifier::external_type_specification]
#[verifier::external_body]
pub struct ExFromUtf8Error(std::string::FromUtf8Error);

/// The kind that stands for each failure of the VLQ decoder.
pub open spec fn vlq_error_type(e: vlq::Error) -> SourceMapErrorType {
    match e {
        vlq::Error::UnexpectedEof => SourceMapErrorType::VlqUnexpectedEof,
        vlq::Error::InvalidBase64(_) => SourceMapErrorType::VlqInvalidBase64,
        vlq::Error::Overflow => SourceMapErrorType::VlqOverflow,
    }
}

impl FromSpecImpl<vlq::Error> for SourceMapError {
    open spec fn obeys_from_spec() -> bool {
        true
    }

    open spec fn from_spec(e: vlq::Error) -> SourceMapError {
        SourceMapError { error_type: vlq_error_type(e), reason: None }
    }
}

impl From<vlq::Error> for SourceMapError {
    /// A failure of the VLQ decoder becomes the kind of the same name; the
    /// offending byte of an invalid digit is not kept.
    fn from(e: vlq::Error) -> (err: SourceMapError)
        ensures
            err.error_type == vlq_error_type(e),
            err.reason is None,
    {
        match e {
            vlq::Error::UnexpectedEof => SourceMapError::new(SourceMapErrorType::VlqUnexpectedEof),
            vlq::Error::InvalidBase64(_) => SourceMapError::new(
                SourceMapErrorType::VlqInvalidBase64,
            ),
            vlq::Error::Overflow => SourceMapError::new(SourceMapErrorType::VlqOverflow),
        }
    }
}

impl FromSpecImpl<std::io::Error> for SourceMapError {
    open spec fn obeys_from_spec() -> bool {
        true
    }

    open spec fn from_spec(e: std::io::Error) -> SourceMapError {
        SourceMapError { error_type: SourceMapErrorType::IOError, reason: None }
    }
}

impl From<std::io::Error> for SourceMapError {
    /// Every failure of a byte stream, whatever its cause, is an `IOError`.
    fn from(_err: std::io::Error) -> (err: SourceMapError)
        ensures
            err.error_type == SourceMapErrorType::IOError,
            err.reason is None,
    {
        SourceMapError::new(SourceMapErrorType::IOError)
    }
}

impl FromSpecImpl<rkyv::Unreachable> for SourceMapError {
    open spec fn obeys_from_spec() -> bool {
        true
    }

    open spec fn from_spec(e: rkyv::Unreachable) -> SourceMapError {
        SourceMapError { error_type: SourceMapErrorType::BufferError, reason: None }
    }
}

impl From<rkyv::Unreachable> for SourceMapError {
    /// A failure of the buffer serializer is a `BufferError`.
    fn from(_err: rkyv::Unreachable) -> (err: SourceMapError)
        ensures
            err.error_type == SourceMapErrorType::BufferError,
            err.reason is None,
    {
        SourceMapError::new(SourceMapErrorType::BufferError)
    }
}

impl FromSpecImpl<std::string::FromUtf8Error> for SourceMapError {
    open spec fn obeys_from_spec() -> bool {
        true
    }

    open spec fn from_spec(e: std::string::FromUtf8Error) -> SourceMapError {
        SourceMapError { error_type: SourceMapErrorType::FromUtf8Error, reason: None }
    }
}

impl From<std::string::FromUtf8Error> for SourceMapError {
    /// Bytes that are not valid UTF-8 give a `FromUtf8Error`.
    fn from(_err: std::string::FromUtf8Error) -> (err: SourceMapError)
        ensures
            err.error_type == SourceMapErrorType::FromUtf8Error,
            err.reason is None,
    {
        SourceMapError::new(SourceMapErrorType::FromUtf8Error)
    }
}

} // verus!
