use vstd::prelude::*;
use vstd::std_specs::convert::FromSpecImpl;
use crate::sourcemap_error::{SourceMapError, SourceMapErrorView};

verus! {

/// The status that a `napi::Error` carries, `napi::Status`.
#[verifier::external_type_specification]
pub struct ExNapiStatus(napi::Status);

/// The error object of the native host, `napi::Error`: a status and the text
/// of the reason.
#[verifier::external_type_specification]
pub struct ExNapiError(napi::Error);

/// `napi::Error::new` fills the two fields of the error with its arguments.
pub assume_specification[ napi::Error::new ](status: napi::Status, reason: String) -> (error:
    napi::Error)
    ensures
        error.status == status,
        error.reason == reason,
;

/// Whether `error` is what the native host is given for the failure `err`:
/// a generic failure whose reason is the message of `err`.
pub open spec fn is_native_rendering(err: SourceMapErrorView, error: napi::Error) -> bool {
    &&& error.status == napi::Status::GenericFailure
    &&& error.reason@ == err.message()
}

/// Two strings with the same text need not be the same value, so no spec
/// function gives the error itself: the `ensures` of `from` says what the
/// error holds.
impl FromSpecImpl<SourceMapError> for napi::Error {
    open spec fn obeys_from_spec() -> bool {
        false
    }

    open spec fn from_spec(err: SourceMapError) -> napi::Error {
        arbitrary()
    }
}

impl From<SourceMapError> for napi::Error {
    /// The native host's generic failure, carrying the message of `err`.
    fn from(err: SourceMapError) -> (error: napi::Error)
        ensures
            is_native_rendering(err@, error),
    {
        napi::Error::new(napi::Status::GenericFailure, err.message())
    }
}

/// Two failures of the same kind and with the same reason reach the native
/// host with the same text, and that text is the message that every other
/// host is given.
pub proof fn lemma_native_text_follows_kind_and_reason(
    a: SourceMapErrorView,
    b: SourceMapErrorView,
    for_a: napi::Error,
    for_b: napi::Error,
)
    requires
        a.error_type == b.error_type,
        a.reason == b.reason,
        is_native_rendering(a, for_a),
        is_native_rendering(b, for_b),
    ensures
        for_a.reason@ == for_b.reason@,
        for_a.reason@ == a.message(),
        for_a.status == for_b.status,
{
}

} // verus!
