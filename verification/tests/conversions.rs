use parcel_sourcemap::{SourceMapError, SourceMapErrorType};

fn decode_failure(input: &[u8]) -> vlq::Error {
    match vlq::decode(&mut input.iter().cloned()) {
        Ok(value) => panic!("decoded {}", value),
        Err(e) => e,
    }
}

#[test]
fn vlq_end_of_input_in_the_enum() {
    let err = SourceMapError::from(vlq::Error::UnexpectedEof);
    assert_eq!(err.error_type, SourceMapErrorType::VlqUnexpectedEof);
    assert_eq!(err.reason, None);
}

#[test]
fn vlq_invalid_digit_in_the_enum() {
    for byte in [0u8, b'!', b' ', 0x7f, 0xff] {
        let err = SourceMapError::from(vlq::Error::InvalidBase64(byte));
        assert_eq!(err.error_type, SourceMapErrorType::VlqInvalidBase64);
        assert_eq!(err.reason, None);
    }
}

#[test]
fn vlq_overflow_in_the_enum() {
    let err = SourceMapError::from(vlq::Error::Overflow);
    assert_eq!(err.error_type, SourceMapErrorType::VlqOverflow);
    assert_eq!(err.reason, None);
}

#[test]
fn vlq_decoder_runs_out_of_input() {
    let err = SourceMapError::from(decode_failure(b""));
    assert_eq!(err.error_type, SourceMapErrorType::VlqUnexpectedEof);
    assert_eq!(err.reason, None);
    assert_eq!(err.message(), "[parcel-sourcemap] VLQ Unexpected end of file");
}

#[test]
fn vlq_decoder_stops_in_the_middle_of_a_value() {
    let err = SourceMapError::from(decode_failure(b"g"));
    assert_eq!(err.error_type, SourceMapErrorType::VlqUnexpectedEof);
    assert_eq!(err.reason, None);
}

#[test]
fn vlq_decoder_meets_a_byte_outside_the_alphabet() {
    let err = SourceMapError::from(decode_failure(b"!"));
    assert_eq!(err.error_type, SourceMapErrorType::VlqInvalidBase64);
    assert_eq!(err.reason, None);
    assert_eq!(err.message(), "[parcel-sourcemap] VLQ Invalid Base 64 value");
}

#[test]
fn vlq_decoder_overflows() {
    let err = SourceMapError::from(decode_failure(b"gggggggggggggggggggggggg"));
    assert_eq!(err.error_type, SourceMapErrorType::VlqOverflow);
    assert_eq!(err.reason, None);
    assert_eq!(
        err.message(),
        "[parcel-sourcemap] VLQ Value overflowed, does not fit in u32"
    );
}

#[test]
fn io_failures_of_every_cause_are_io_errors() {
    let causes = [
        std::io::ErrorKind::NotFound,
        std::io::ErrorKind::PermissionDenied,
        std::io::ErrorKind::UnexpectedEof,
        std::io::ErrorKind::WriteZero,
        std::io::ErrorKind::Other,
    ];
    for cause in causes {
        let err = SourceMapError::from(std::io::Error::new(cause, "detail that is dropped"));
        assert_eq!(err.error_type, SourceMapErrorType::IOError);
        assert_eq!(err.reason, None);
        assert_eq!(err.message(), "[parcel-sourcemap] IO Error");
    }
}

#[test]
fn io_failure_converts_through_into() {
    let err: SourceMapError = std::io::Error::from(std::io::ErrorKind::BrokenPipe).into();
    assert_eq!(err.error_type, SourceMapErrorType::IOError);
    assert_eq!(err.reason, None);
}

#[test]
fn invalid_utf8_is_a_from_utf8_error() {
    let failure = match String::from_utf8(vec![0x66, 0x6f, 0xff]) {
        Ok(text) => panic!("decoded {}", text),
        Err(e) => e,
    };
    let err = SourceMapError::from(failure);
    assert_eq!(err.error_type, SourceMapErrorType::FromUtf8Error);
    assert_eq!(err.reason, None);
    assert_eq!(
        err.message(),
        "[parcel-sourcemap] Could not convert utf-8 array to string"
    );
}

#[test]
fn buffer_failure_has_a_conversion() {
    // `rkyv::Unreachable` has no value, so the conversion can only be named.
    let convert: fn(rkyv::Unreachable) -> SourceMapError = SourceMapError::from;
    let _ = convert;
    assert_eq!(
        SourceMapError::new(SourceMapErrorType::BufferError).message(),
        "[parcel-sourcemap] Something went wrong while writing/reading a sourcemap buffer"
    );
}

#[test]
fn question_mark_converts_a_vlq_failure() {
    fn first_value(input: &[u8]) -> Result<i64, SourceMapError> {
        Ok(vlq::decode(&mut input.iter().cloned())?)
    }
    assert_eq!(first_value(b"C").ok(), Some(1));
    let err = match first_value(b"") {
        Ok(value) => panic!("decoded {}", value),
        Err(e) => e,
    };
    assert_eq!(err.error_type, SourceMapErrorType::VlqUnexpectedEof);
}
