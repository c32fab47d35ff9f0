//! The values and envelopes that cross the boundary between host and sandbox.

use vstd::prelude::*;

verus! {

/// The mathematical model of a value that crosses the boundary.
///
/// Every executable value type of this crate views as one of these four
/// variants; nothing else crosses in either direction.
pub enum ScriptValue {
    Void,
    Int(int),
    Bool(bool),
    Str(Seq<char>),
}

/// The type of result that an evaluation is asked to produce.
#[derive(Debug, Clone, Copy, PartialEq, Eq, Structural)]
pub enum EvalResponseType {
    Void,
    Int,
    String,
    Bool,
}

impl ScriptValue {
    /// The tag of the variant that this value is.
    pub open spec fn tag(self) -> EvalResponseType {
        match self {
            ScriptValue::Void => EvalResponseType::Void,
            ScriptValue::Int(_) => EvalResponseType::Int,
            ScriptValue::Bool(_) => EvalResponseType::Bool,
            ScriptValue::Str(_) => EvalResponseType::String,
        }
    }
}

/// The value that an evaluation or a callback produced.
#[derive(Debug, Clone, PartialEq, Eq)]
pub enum EvalResponse {
    Void,
    Int(i32),
    String(String),
    Bool(bool),
}

impl View for EvalResponse {
    type V = ScriptValue;

    open spec fn view(&self) -> ScriptValue {
        match self {
            EvalResponse::Void => ScriptValue::Void,
            EvalResponse::Int(v) => ScriptValue::Int(*v as int),
            EvalResponse::String(v) => ScriptValue::Str(v@),
            EvalResponse::Bool(v) => ScriptValue::Bool(*v),
        }
    }
}

impl EvalResponse {
    /// The tag of the variant that this response is.
    pub fn response_type(&self) -> (tag: EvalResponseType)
        ensures
            tag == self@.tag(),
    {
        match self {
            EvalResponse::Void => EvalResponseType::Void,
            EvalResponse::Int(_) => EvalResponseType::Int,
            EvalResponse::String(_) => EvalResponseType::String,
            EvalResponse::Bool(_) => EvalResponseType::Bool,
        }
    }
}

/// A request to evaluate `source` and to answer with a value of type
/// `response_type`.
#[derive(Debug, Clone, PartialEq, Eq)]
pub struct EvalRequest {
    pub source: String,
    pub response_type: EvalResponseType,
}

/// A request to install, under `name`, a global function that forwards to
/// the host.
#[derive(Debug, Clone, PartialEq, Eq)]
pub struct RegisterRequest {
    pub name: String,
}

/// One argument that script passed to a registered function.
#[derive(Debug, Clone, PartialEq, Eq)]
pub enum CallRegisteredParam {
    Int(i32),
    String(String),
    Bool(bool),
}

impl View for CallRegisteredParam {
    type V = ScriptValue;

    open spec fn view(&self) -> ScriptValue {
        match self {
            CallRegisteredParam::Int(v) => ScriptValue::Int(*v as int),
            CallRegisteredParam::String(v) => ScriptValue::Str(v@),
            CallRegisteredParam::Bool(v) => ScriptValue::Bool(*v),
        }
    }
}

/// A call that script made to the registered function `name`, with the
/// arguments that it passed, in order.
#[derive(Debug, Clone, PartialEq, Eq)]
pub struct CallRegisteredRequest {
    pub name: String,
    pub params: Vec<CallRegisteredParam>,
}

/// The model of an error that crosses the boundary.
pub enum WireError {
    Message(Seq<char>),
    WrongType(Seq<char>),
}

/// An error that one side reports to the other in place of a value.
#[derive(Debug, Clone, PartialEq, Eq)]
pub enum Error {
    /// The script raised an exception or could not be run; the text says why.
    Message(String),
    /// A value was produced, but not of the type that was asked for.
    WrongType(String),
}

impl View for Error {
    type V = WireError;

    open spec fn view(&self) -> WireError {
        match self {
            Error::Message(text) => WireError::Message(text@),
            Error::WrongType(text) => WireError::WrongType(text@),
        }
    }
}

/// The model of what one side answers the other: a value or an error.
pub open spec fn answer_model(answer: Result<EvalResponse, Error>) -> Result<
    ScriptValue,
    WireError,
> {
    match answer {
        Ok(response) => Ok(response@),
        Err(error) => Err(error@),
    }
}

} // verus!
