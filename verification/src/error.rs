//! The errors that decoding reports.

use vstd::prelude::*;

verus! {

/// The error of `serde_json`: why a text is not JSON. It is carried, never
/// looked into.
#[verifier::external_type_specification]
#[verifier::external_body]
pub struct ExJsonError(serde_json::Error);

/// What `serde_json::Error` writes of itself.
pub uninterp spec fn json_error_text(e: serde_json::Error) -> Seq<char>;

/// Calls `to_string` on the error, which writes it as `serde_json` has it
/// displayed.
#[verifier::external_body]
pub(crate) fn write_json_error(e: &serde_json::Error) -> (text: String)
    ensures
        text@ == json_error_text(*e),
{
    e.to_string()
}

/// The kind of a decoding failure.
#[derive(Debug, Clone, Copy, PartialEq, Eq, Structural)]
pub enum FailureKind {
    /// A part of the markup that has to be there was not found.
    StructuralMismatch,
    /// Rows of the outline table were left over when every known field had
    /// been taken: the page has a field that no rule accounts for.
    ResidualField,
    /// A value was found and could not be read as what its field holds: a
    /// date, a number, a classification.
    FieldFormat,
    /// A JSON value has none of the shapes that its field accepts.
    ShapeMismatch,
}

/// A decoding failure as the contracts speak of it: its kind and what it
/// says.
pub struct Failure {
    pub kind: FailureKind,
    pub message: Seq<char>,
}

/// The failure to find a part of the markup.
pub open spec fn structural(message: Seq<char>) -> Failure {
    Failure { kind: FailureKind::StructuralMismatch, message }
}

/// The failure to account for every row.
pub open spec fn residual(message: Seq<char>) -> Failure {
    Failure { kind: FailureKind::ResidualField, message }
}

/// The failure to read a value that was found.
pub open spec fn malformed(message: Seq<char>) -> Failure {
    Failure { kind: FailureKind::FieldFormat, message }
}

/// The failure of a JSON value to have an accepted shape.
pub open spec fn misshapen(message: Seq<char>) -> Failure {
    Failure { kind: FailureKind::ShapeMismatch, message }
}

/// Why a payload could not be decoded.
#[derive(Debug)]
pub enum DlsiteError {
    /// The text is not JSON.
    SerdeJson(serde_json::Error),
    /// The payload is not what the decoder assumes: the kind of the
    /// failure, and a message that names what was missing or malformed.
    Parse(FailureKind, String),
    /// The service answered, and reported a failure of its own.
    Server(String),
}

impl DlsiteError {
    /// Whether this is the decoding failure `failure`.
    pub open spec fn is_failure(&self, failure: Failure) -> bool {
        self matches DlsiteError::Parse(k, m) && k == failure.kind && m@ == failure.message
    }

    /// Whether this is the shape mismatch with the message `message`.
    pub open spec fn is_shape(&self, message: Seq<char>) -> bool {
        self.is_failure(misshapen(message))
    }

    /// Whether this is the service's failure with the message `message`.
    pub open spec fn is_server(&self, message: Seq<char>) -> bool {
        self matches DlsiteError::Server(m) && m@ == message
    }

    /// What the error says.
    pub open spec fn message_of(&self) -> Seq<char> {
        match self {
            DlsiteError::SerdeJson(e) => json_error_text(*e),
            DlsiteError::Parse(_, m) => m@,
            DlsiteError::Server(m) => m@,
        }
    }

    /// What the error says.
    pub fn message(&self) -> (text: String)
        ensures
            text@ == self.message_of(),
    {
        match self {
            DlsiteError::SerdeJson(e) => write_json_error(e),
            DlsiteError::Parse(_, m) => m.clone(),
            DlsiteError::Server(m) => m.clone(),
        }
    }

    /// The kind of a decoding failure; nothing for the other errors.
    pub fn kind(&self) -> (kind: Option<FailureKind>)
        ensures
            kind == (match self {
                DlsiteError::Parse(k, _) => Some(*k),
                _ => None,
            }),
    {
        match self {
            DlsiteError::Parse(k, _) => Some(*k),
            _ => None,
        }
    }

    /// The failure to find a part of the markup.
    pub fn structural(message: &str) -> (e: DlsiteError)
        ensures
            e.is_failure(structural(message@)),
    {
        DlsiteError::Parse(FailureKind::StructuralMismatch, message.to_owned())
    }

    /// The failure to read a value that was found.
    pub fn malformed(message: &str) -> (e: DlsiteError)
        ensures
            e.is_failure(malformed(message@)),
    {
        DlsiteError::Parse(FailureKind::FieldFormat, message.to_owned())
    }

    /// The failure of a JSON value to have an accepted shape.
    pub fn shape(message: &str) -> (e: DlsiteError)
        ensures
            e.is_shape(message@),
    {
        DlsiteError::Parse(FailureKind::ShapeMismatch, message.to_owned())
    }
}

/// `value`, or the failure of the kind `kind` that says `message` where
/// there is none.
pub fn to_parse_error<T>(value: Option<T>, kind: FailureKind, message: &str) -> (r: Result<
    T,
    DlsiteError,
>)
    ensures
        match r {
            Ok(v) => value == Some(v),
            Err(e) => value is None && e.is_failure(Failure { kind, message: message@ }),
        },
{
    match value {
        Some(v) => Ok(v),
        None => Err(DlsiteError::Parse(kind, message.to_owned())),
    }
}

} // verus!
