//! The errors a request can end in.
use vstd::prelude::*;

verus! {

/// Which of the three kinds an error belongs to.
#[derive(Debug, Clone, Copy, PartialEq, Eq, Structural)]
pub enum ErrorKind {
    /// The payload is malformed, truncated or structurally invalid.
    InputError,
    /// A value is well-formed but not acceptable.
    UnknownParameter,
    /// An element that has to be invertible is not.
    UnexpectedZero,
}

/// An error with the sentence that describes it.
#[derive(Debug, Clone, PartialEq, Eq)]
pub enum ApiError {
    /// The payload is malformed, truncated or structurally invalid.
    InputError(String),
    /// A value is well-formed but not acceptable.
    UnknownParameter(String),
    /// An element that has to be invertible is not.
    UnexpectedZero(String),
}

impl ApiError {
    /// The kind of this error, without its sentence.
    pub open spec fn spec_kind(&self) -> ErrorKind {
        match self {
            ApiError::InputError(_) => ErrorKind::InputError,
            ApiError::UnknownParameter(_) => ErrorKind::UnknownParameter,
            ApiError::UnexpectedZero(_) => ErrorKind::UnexpectedZero,
        }
    }

    /// The kind of this error, without its sentence.
    #[verifier::when_used_as_spec(spec_kind)]
    pub fn kind(&self) -> (k: ErrorKind)
        ensures
            k == self.spec_kind(),
    {
        match self {
            ApiError::InputError(_) => ErrorKind::InputError,
            ApiError::UnknownParameter(_) => ErrorKind::UnknownParameter,
            ApiError::UnexpectedZero(_) => ErrorKind::UnexpectedZero,
        }
    }

    /// The sentence that describes this error.
    pub open spec fn spec_message(&self) -> Seq<char> {
        match self {
            ApiError::InputError(m) => m@,
            ApiError::UnknownParameter(m) => m@,
            ApiError::UnexpectedZero(m) => m@,
        }
    }

    /// The sentence that describes this error.
    pub fn message(&self) -> (m: String)
        ensures
            m@ == self.spec_message(),
    {
        match self {
            ApiError::InputError(m) => m.clone(),
            ApiError::UnknownParameter(m) => m.clone(),
            ApiError::UnexpectedZero(m) => m.clone(),
        }
    }

    /// An input error with the given sentence.
    pub fn input_error(text: &str) -> (e: ApiError)
        ensures
            e.spec_kind() == ErrorKind::InputError,
            e.spec_message() == text@,
    {
        ApiError::InputError(text.to_owned())
    }

    /// An unknown-parameter error with the given sentence.
    pub fn unknown_parameter(text: &str) -> (e: ApiError)
        ensures
            e.spec_kind() == ErrorKind::UnknownParameter,
            e.spec_message() == text@,
    {
        ApiError::UnknownParameter(text.to_owned())
    }

    /// An unexpected-zero error with the given sentence.
    pub fn unexpected_zero(text: &str) -> (e: ApiError)
        ensures
            e.spec_kind() == ErrorKind::UnexpectedZero,
            e.spec_message() == text@,
    {
        ApiError::UnexpectedZero(text.to_owned())
    }
}

} // verus!
