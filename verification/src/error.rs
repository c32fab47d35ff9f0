//! The errors that the host side returns to its caller.

use vstd::prelude::*;
use vstd::string::StringExecFns;

verus! {

/// The model of a [`ScriptError`].
pub enum ScriptFailure {
    Raised(Seq<char>),
    Aborted,
}

/// Why a script did not run to a value.
#[derive(Debug, Clone, PartialEq, Eq)]
pub enum ScriptError {
    /// The script raised an exception or failed to parse; the text is what
    /// the sandbox reported.
    Raised(String),
    /// The sandbox cut the script short.
    Aborted,
}

impl View for ScriptError {
    type V = ScriptFailure;

    open spec fn view(&self) -> ScriptFailure {
        match self {
            ScriptError::Raised(text) => ScriptFailure::Raised(text@),
            ScriptError::Aborted => ScriptFailure::Aborted,
        }
    }
}

/// The model of an [`Error`]: the same variants, with texts as sequences.
pub enum Failure {
    Init(Seq<char>),
    Protocol(Seq<char>),
    Script(ScriptFailure),
    WrongType(Seq<char>),
    ArityOrTypeMismatch(Seq<char>),
    NotFound(Seq<char>),
    InvalidState,
    Unrepresentable(Seq<char>),
    Dispatch(Seq<char>),
}

/// An error of the host side.
#[derive(Debug, Clone, PartialEq, Eq)]
pub enum Error {
    /// The sandbox or the script engine failed to start.
    Init(String),
    /// An envelope that crossed the boundary could not be decoded, or was
    /// not the one expected.
    Protocol(String),
    /// The script did not run to a value.
    Script(ScriptError),
    /// A value is not of the native type that it was to be converted to.
    WrongType(String),
    /// Script called a registered function with other arguments than the
    /// function takes.
    ArityOrTypeMismatch(String),
    /// No function is registered under the name that was called.
    NotFound(String),
    /// The session is closed.
    InvalidState,
    /// A value of the script engine has no counterpart among the values
    /// that cross the boundary.
    Unrepresentable(String),
    /// A registered function panicked; the text is its name.
    Dispatch(String),
}

impl View for Error {
    type V = Failure;

    open spec fn view(&self) -> Failure {
        match self {
            Error::Init(text) => Failure::Init(text@),
            Error::Protocol(text) => Failure::Protocol(text@),
            Error::Script(error) => Failure::Script(error@),
            Error::WrongType(text) => Failure::WrongType(text@),
            Error::ArityOrTypeMismatch(text) => Failure::ArityOrTypeMismatch(text@),
            Error::NotFound(name) => Failure::NotFound(name@),
            Error::InvalidState => Failure::InvalidState,
            Error::Unrepresentable(text) => Failure::Unrepresentable(text@),
            Error::Dispatch(name) => Failure::Dispatch(name@),
        }
    }
}

impl Failure {
    /// The text that describes this error to the other side.
    pub open spec fn text(self) -> Seq<char> {
        match self {
            Failure::Init(text) => "init: "@ + text,
            Failure::Protocol(text) => "protocol: "@ + text,
            Failure::Script(ScriptFailure::Raised(text)) => "script: "@ + text,
            Failure::Script(ScriptFailure::Aborted) => "script: aborted"@,
            Failure::WrongType(text) => "wrong type: "@ + text,
            Failure::ArityOrTypeMismatch(text) => "arity or type mismatch: "@ + text,
            Failure::NotFound(name) => "not found: "@ + name,
            Failure::InvalidState => "invalid state"@,
            Failure::Unrepresentable(text) => "unrepresentable: "@ + text,
            Failure::Dispatch(name) => "dispatch: "@ + name,
        }
    }
}

impl Error {
    /// The text that describes this error to the other side: what kind of
    /// error it is, then what it carries.
    pub fn message(&self) -> (text: String)
        ensures
            text@ == self@.text(),
    {
        match self {
            Error::Init(text) => "init: ".to_owned().concat(text.as_str()),
            Error::Protocol(text) => "protocol: ".to_owned().concat(text.as_str()),
            Error::Script(ScriptError::Raised(text)) => "script: ".to_owned().concat(text.as_str()),
            Error::Script(ScriptError::Aborted) => "script: aborted".to_owned(),
            Error::WrongType(text) => "wrong type: ".to_owned().concat(text.as_str()),
            Error::ArityOrTypeMismatch(text) => "arity or type mismatch: ".to_owned().concat(
                text.as_str(),
            ),
            Error::NotFound(name) => "not found: ".to_owned().concat(name.as_str()),
            Error::InvalidState => "invalid state".to_owned(),
            Error::Unrepresentable(text) => "unrepresentable: ".to_owned().concat(text.as_str()),
            Error::Dispatch(name) => "dispatch: ".to_owned().concat(name.as_str()),
        }
    }
}

} // verus!
