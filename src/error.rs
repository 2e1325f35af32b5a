//! The errors a translation can end in.
use vstd::prelude::*;
use vstd::string::*;

verus! {

/// What went wrong, one variant per kind of failure.
#[derive(Debug, Clone, Copy, PartialEq, Eq, Structural)]
pub enum ErrorKind {
    /// The text to translate is empty once surrounding whitespace is removed.
    InvalidInput,
    /// No API key was configured.
    MissingCredential,
    /// The HTTP exchange with the provider failed.
    TransportFailure,
    /// The provider answered with no choices.
    EmptyResponse,
    /// The first choice carries no textual content.
    MalformedResponse,
}

pub const EMPTY_INPUT_MESSAGE: &'static str = "Please enter some text to translate";

pub const MISSING_CREDENTIAL_MESSAGE: &'static str =
    "OpenAI API key not found. Please set OPENAI_API_KEY environment variable";

pub const TRANSPORT_FAILURE_PREFIX: &'static str = "Translation failed: ";

pub const EMPTY_RESPONSE_MESSAGE: &'static str = "No translation received";

pub const MALFORMED_RESPONSE_MESSAGE: &'static str = "Invalid response format";

/// The description that goes with each kind of error; a transport failure
/// adds the transport's own words after it.
pub open spec fn kind_message(kind: ErrorKind) -> Seq<char> {
    match kind {
        ErrorKind::InvalidInput => EMPTY_INPUT_MESSAGE@,
        ErrorKind::MissingCredential => MISSING_CREDENTIAL_MESSAGE@,
        ErrorKind::TransportFailure => TRANSPORT_FAILURE_PREFIX@,
        ErrorKind::EmptyResponse => EMPTY_RESPONSE_MESSAGE@,
        ErrorKind::MalformedResponse => MALFORMED_RESPONSE_MESSAGE@,
    }
}

/// A failed translation: its kind and a description for the user.
#[derive(Debug, Clone)]
pub struct TranslationError {
    pub kind: ErrorKind,
    pub message: String,
}

impl TranslationError {
    /// The error of `kind` with its standard description.
    pub fn from_kind(kind: ErrorKind) -> (r: TranslationError)
        ensures
            r.kind == kind,
            r.message@ == kind_message(kind),
    {
        let text: &'static str = match kind {
            ErrorKind::InvalidInput => EMPTY_INPUT_MESSAGE,
            ErrorKind::MissingCredential => MISSING_CREDENTIAL_MESSAGE,
            ErrorKind::TransportFailure => TRANSPORT_FAILURE_PREFIX,
            ErrorKind::EmptyResponse => EMPTY_RESPONSE_MESSAGE,
            ErrorKind::MalformedResponse => MALFORMED_RESPONSE_MESSAGE,
        };
        TranslationError { kind, message: String::from_str(text) }
    }

    /// A transport failure that carries the transport's description `detail`.
    pub fn transport_failure(detail: &str) -> (r: TranslationError)
        ensures
            r.kind == ErrorKind::TransportFailure,
            r.message@ == TRANSPORT_FAILURE_PREFIX@ + detail@,
    {
        let message = String::from_str(TRANSPORT_FAILURE_PREFIX).concat(detail);
        TranslationError { kind: ErrorKind::TransportFailure, message }
    }

    /// The description shown to the user.
    pub fn to_string(&self) -> (r: String)
        ensures
            r@ == self.message@,
    {
        self.message.clone()
    }
}

/// The API key to use: `configured` itself, or a `MissingCredential` error
/// when nothing was configured.
pub fn require_credential(configured: Option<String>) -> (r: Result<String, TranslationError>)
    ensures
        configured is None <==> r is Err,
        r matches Ok(key) ==> configured == Some(key),
        r matches Err(e) ==> e.kind == ErrorKind::MissingCredential && e.message@ == kind_message(
            ErrorKind::MissingCredential,
        ),
{
    match configured {
        Some(key) => Ok(key),
        None => Err(TranslationError::from_kind(ErrorKind::MissingCredential)),
    }
}

} // verus!
