use vstd::prelude::*;
use vstd::string::StringExecFns;

verus! {

/// What went wrong while a source map was processed or modified.
///
/// Each kind has a fixed, non-zero numeric identity, given by
/// [`SourceMapErrorType::code`]; zero stands for "no failure" and belongs to
/// no kind.
#[derive(Copy, Clone, Debug, PartialEq, Eq, Structural)]
pub enum SourceMapErrorType {
    /// The mappings contained a negative line, column, source index, or name index.
    UnexpectedNegativeNumber,
    /// The mappings contained a number larger than `u32::MAX`.
    UnexpectedlyBigNumber,
    /// The input ended in the middle of a VLQ.
    VlqUnexpectedEof,
    /// A VLQ held a byte outside the base 64 alphabet.
    VlqInvalidBase64,
    /// A VLQ decoded to a number that does not fit in a `u32`.
    VlqOverflow,
    /// A read from or a write to a byte stream failed.
    IOError,
    /// A reference into the table of names was out of bounds.
    NameOutOfRange,
    /// A reference into the table of sources was out of bounds.
    SourceOutOfRange,
    /// The binary buffer could not be read or written.
    BufferError,
    /// A file path could not be used.
    InvalidFilePath,
    /// A byte sequence was not valid UTF-8.
    FromUtf8Error,
}

impl SourceMapErrorType {
    /// The numeric identity of each kind.
    pub open spec fn spec_code(self) -> u32 {
        match self {
            SourceMapErrorType::UnexpectedNegativeNumber => 1,
            SourceMapErrorType::UnexpectedlyBigNumber => 2,
            SourceMapErrorType::VlqUnexpectedEof => 3,
            SourceMapErrorType::VlqInvalidBase64 => 4,
            SourceMapErrorType::VlqOverflow => 5,
            SourceMapErrorType::IOError => 6,
            SourceMapErrorType::NameOutOfRange => 7,
            SourceMapErrorType::SourceOutOfRange => 8,
            SourceMapErrorType::BufferError => 9,
            SourceMapErrorType::InvalidFilePath => 10,
            SourceMapErrorType::FromUtf8Error => 11,
        }
    }

    /// The phrase that names each kind in a message.
    pub open spec fn spec_phrase(self) -> Seq<char> {
        match self {
            SourceMapErrorType::UnexpectedNegativeNumber => "Unexpected Negative Number"@,
            SourceMapErrorType::UnexpectedlyBigNumber => "Unexpected Big Number"@,
            SourceMapErrorType::VlqUnexpectedEof => "VLQ Unexpected end of file"@,
            SourceMapErrorType::VlqInvalidBase64 => "VLQ Invalid Base 64 value"@,
            SourceMapErrorType::VlqOverflow => "VLQ Value overflowed, does not fit in u32"@,
            SourceMapErrorType::IOError => "IO Error"@,
            SourceMapErrorType::NameOutOfRange => "Name out of range"@,
            SourceMapErrorType::SourceOutOfRange => "Source out of range"@,
            SourceMapErrorType::InvalidFilePath => "Invalid FilePath"@,
            SourceMapErrorType::BufferError => "Something went wrong while writing/reading a sourcemap buffer"@,
            SourceMapErrorType::FromUtf8Error => "Could not convert utf-8 array to string"@,
        }
    }

    /// The number under which this kind is known to whoever stores or
    /// forwards it. Never zero, and never shared by two kinds.
    #[verifier::when_used_as_spec(spec_code)]
    pub fn code(self) -> (c: u32)
        ensures
            c == self.spec_code(),
            1 <= c <= 11,
    {
        match self {
            SourceMapErrorType::UnexpectedNegativeNumber => 1,
            SourceMapErrorType::UnexpectedlyBigNumber => 2,
            SourceMapErrorType::VlqUnexpectedEof => 3,
            SourceMapErrorType::VlqInvalidBase64 => 4,
            SourceMapErrorType::VlqOverflow => 5,
            SourceMapErrorType::IOError => 6,
            SourceMapErrorType::NameOutOfRange => 7,
            SourceMapErrorType::SourceOutOfRange => 8,
            SourceMapErrorType::BufferError => 9,
            SourceMapErrorType::InvalidFilePath => 10,
            SourceMapErrorType::FromUtf8Error => 11,
        }
    }

    /// The fixed phrase that a message uses for this kind.
    pub fn phrase(self) -> (text: &'static str)
        ensures
            text@ == self.spec_phrase(),
    {
        match self {
            SourceMapErrorType::UnexpectedNegativeNumber => "Unexpected Negative Number",
            SourceMapErrorType::UnexpectedlyBigNumber => "Unexpected Big Number",
            SourceMapErrorType::VlqUnexpectedEof => "VLQ Unexpected end of file",
            SourceMapErrorType::VlqInvalidBase64 => "VLQ Invalid Base 64 value",
            SourceMapErrorType::VlqOverflow => "VLQ Value overflowed, does not fit in u32",
            SourceMapErrorType::IOError => "IO Error",
            SourceMapErrorType::NameOutOfRange => "Name out of range",
            SourceMapErrorType::SourceOutOfRange => "Source out of range",
            SourceMapErrorType::InvalidFilePath => "Invalid FilePath",
            SourceMapErrorType::BufferError => "Something went wrong while writing/reading a sourcemap buffer",
            SourceMapErrorType::FromUtf8Error => "Could not convert utf-8 array to string",
        }
    }
}

/// The tag that opens every message, so that a reader sees where it comes from.
pub open spec fn message_tag() -> Seq<char> {
    "[parcel-sourcemap] "@
}

/// What stands between the phrase and the reason, where there is a reason.
pub open spec fn reason_separator() -> Seq<char> {
    ", "@
}

/// A failure: its kind, and optionally a free-text detail for a human reader.
#[derive(Debug)]
pub struct SourceMapError {
    pub error_type: SourceMapErrorType,
    pub reason: Option<String>,
}

/// The mathematical value of a [`SourceMapError`].
pub struct SourceMapErrorView {
    pub error_type: SourceMapErrorType,
    pub reason: Option<Seq<char>>,
}

impl View for SourceMapError {
    type V = SourceMapErrorView;

    open spec fn view(&self) -> SourceMapErrorView {
        SourceMapErrorView {
            error_type: self.error_type,
            reason: match self.reason {
                Some(r) => Some(r@),
                None => None,
            },
        }
    }
}

impl SourceMapErrorView {
    /// The text shown for a failure: the tag, the phrase of the kind and,
    /// where a reason is given, the separator and the reason as it stands.
    pub open spec fn message(self) -> Seq<char> {
        match self.reason {
            Some(r) => message_tag() + self.error_type.spec_phrase() + reason_separator() + r,
            None => message_tag() + self.error_type.spec_phrase(),
        }
    }
}

impl SourceMapError {
    /// A failure of the given kind, with no reason.
    pub fn new(error_type: SourceMapErrorType) -> (err: Self)
        ensures
            err@ == (SourceMapErrorView { error_type, reason: None }),
    {
        Self { error_type, reason: None }
    }

    /// A failure of the given kind, with a copy of `reason` as its detail.
    pub fn new_with_reason(error_type: SourceMapErrorType, reason: &str) -> (err: Self)
        ensures
            err@ == (SourceMapErrorView { error_type, reason: Some(reason@) }),
    {
        Self { error_type, reason: Some(reason.to_owned()) }
    }

    /// The text that a host shows for this failure. It is the same for
    /// every host: a host only wraps it in its own kind of error object.
    pub fn message(&self) -> (text: String)
        ensures
            text@ == self@.message(),
    {
        let mut text = String::from_str("[parcel-sourcemap] ");
        text.append(self.error_type.phrase());
        match &self.reason {
            Some(r) => {
                text.append(", ");
                text.append(r.as_str());
            },
            None => {},
        }
        text
    }
}

/// Every kind has a number from 1 to 11, so none has the number zero, and
/// two kinds with the same number are the same kind.
pub proof fn lemma_code_identifies_kind(a: SourceMapErrorType, b: SourceMapErrorType)
    ensures
        1 <= a.spec_code() <= 11,
        a.spec_code() == b.spec_code() ==> a == b,
{
}

/// Every number from 1 to 11 is the number of some kind.
pub proof fn lemma_every_code_is_in_use(c: u32)
    requires
        1 <= c <= 11,
    ensures
        exists|kind: SourceMapErrorType| kind.spec_code() == c,
{
    let kind = if c == 1 {
        SourceMapErrorType::UnexpectedNegativeNumber
    } else if c == 2 {
        SourceMapErrorType::UnexpectedlyBigNumber
    } else if c == 3 {
        SourceMapErrorType::VlqUnexpectedEof
    } else if c == 4 {
        SourceMapErrorType::VlqInvalidBase64
    } else if c == 5 {
        SourceMapErrorType::VlqOverflow
    } else if c == 6 {
        SourceMapErrorType::IOError
    } else if c == 7 {
        SourceMapErrorType::NameOutOfRange
    } else if c == 8 {
        SourceMapErrorType::SourceOutOfRange
    } else if c == 9 {
        SourceMapErrorType::BufferError
    } else if c == 10 {
        SourceMapErrorType::InvalidFilePath
    } else {
        SourceMapErrorType::FromUtf8Error
    };
    assert(kind.spec_code() == c);
}

/// The length of each phrase, and its first and last character.
proof fn lemma_phrase_ends(kind: SourceMapErrorType)
    ensures
        kind.spec_phrase().len() == match kind {
            SourceMapErrorType::UnexpectedNegativeNumber => 26nat,
            SourceMapErrorType::UnexpectedlyBigNumber => 21,
            SourceMapErrorType::VlqUnexpectedEof => 26,
            SourceMapErrorType::VlqInvalidBase64 => 25,
            SourceMapErrorType::VlqOverflow => 41,
            SourceMapErrorType::IOError => 8,
            SourceMapErrorType::NameOutOfRange => 17,
            SourceMapErrorType::SourceOutOfRange => 19,
            SourceMapErrorType::InvalidFilePath => 16,
            SourceMapErrorType::BufferError => 61,
            SourceMapErrorType::FromUtf8Error => 39,
        },
        kind.spec_phrase().first() == match kind {
            SourceMapErrorType::UnexpectedNegativeNumber => 'U',
            SourceMapErrorType::UnexpectedlyBigNumber => 'U',
            SourceMapErrorType::VlqUnexpectedEof => 'V',
            SourceMapErrorType::VlqInvalidBase64 => 'V',
            SourceMapErrorType::VlqOverflow => 'V',
            SourceMapErrorType::IOError => 'I',
            SourceMapErrorType::NameOutOfRange => 'N',
            SourceMapErrorType::SourceOutOfRange => 'S',
            SourceMapErrorType::InvalidFilePath => 'I',
            SourceMapErrorType::BufferError => 'S',
            SourceMapErrorType::FromUtf8Error => 'C',
        },
        kind.spec_phrase().last() != ',',
{
    reveal_strlit("Unexpected Negative Number");
    reveal_strlit("Unexpected Big Number");
    reveal_strlit("VLQ Unexpected end of file");
    reveal_strlit("VLQ Invalid Base 64 value");
    reveal_strlit("VLQ Value overflowed, does not fit in u32");
    reveal_strlit("IO Error");
    reveal_strlit("Name out of range");
    reveal_strlit("Source out of range");
    reveal_strlit("Invalid FilePath");
    reveal_strlit("Something went wrong while writing/reading a sourcemap buffer");
    reveal_strlit("Could not convert utf-8 array to string");
}

/// No phrase is empty, and two kinds with the same phrase are the same kind.
pub proof fn lemma_phrase_identifies_kind(a: SourceMapErrorType, b: SourceMapErrorType)
    ensures
        a.spec_phrase().len() > 0,
        a.spec_phrase() == b.spec_phrase() ==> a == b,
{
    lemma_phrase_ends(a);
    lemma_phrase_ends(b);
}

/// Every message starts with the tag, and the phrase of the kind follows it
/// at once, whether or not a reason is given.
pub proof fn lemma_message_starts_with_tag_and_phrase(err: SourceMapErrorView)
    ensures
        message_tag() == "[parcel-sourcemap] "@,
        (message_tag() + err.error_type.spec_phrase()).is_prefix_of(err.message()),
        message_tag().is_prefix_of(err.message()),
        err.message().len() > message_tag().len(),
{
    let head = message_tag() + err.error_type.spec_phrase();
    lemma_phrase_ends(err.error_type);
    match err.reason {
        Some(r) => {
            assert(err.message() =~= head + (reason_separator() + r));
            assert(head =~= err.message().subrange(0, head.len() as int));
        },
        None => {
            assert(head =~= err.message().subrange(0, head.len() as int));
        },
    }
    assert(message_tag() =~= err.message().subrange(0, message_tag().len() as int));
}

/// A message with a reason ends in `", "` and the reason as it stands, also
/// where the reason is empty.
pub proof fn lemma_message_ends_with_reason(error_type: SourceMapErrorType, reason: Seq<char>)
    ensures
        ({
            let text = (SourceMapErrorView { error_type, reason: Some(reason) }).message();
            let tail = ", "@ + reason;
            &&& tail.is_suffix_of(text)
            &&& text.len() == message_tag().len() + error_type.spec_phrase().len() + 2
                + reason.len()
        }),
{
    reveal_strlit(", ");
    let text = (SourceMapErrorView { error_type, reason: Some(reason) }).message();
    let tail = ", "@ + reason;
    assert(tail =~= text.subrange(text.len() - tail.len(), text.len() as int));
}

/// A message without a reason is the tag and the phrase and nothing more: it
/// does not end in a comma.
pub proof fn lemma_message_without_reason_has_no_comma_at_end(error_type: SourceMapErrorType)
    ensures
        ({
            let text = (SourceMapErrorView { error_type, reason: None }).message();
            &&& text == message_tag() + error_type.spec_phrase()
            &&& text.len() > 0
            &&& text.last() != ','
        }),
{
    lemma_phrase_ends(error_type);
}

/// The message depends on the kind and the reason alone.
pub proof fn lemma_message_follows_kind_and_reason(a: SourceMapError, b: SourceMapError)
    requires
        a.error_type == b.error_type,
        a@.reason == b@.reason,
    ensures
        a@.message() == b@.message(),
{
}

} // verus!
