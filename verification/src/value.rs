//! Conversions between native host types and the values that cross the
//! boundary.

use crate::error::{Error, Failure};
use crate::protocol::{EvalResponse, EvalResponseType, ScriptValue};
use vstd::prelude::*;

verus! {

/// A value as the host sees it.
#[derive(Debug, Clone, PartialEq, Eq)]
pub enum Value {
    Void,
    Int(i32),
    Bool(bool),
    Str(String),
}

impl View for Value {
    type V = ScriptValue;

    open spec fn view(&self) -> ScriptValue {
        match self {
            Value::Void => ScriptValue::Void,
            Value::Int(v) => ScriptValue::Int(*v as int),
            Value::Bool(v) => ScriptValue::Bool(*v),
            Value::Str(v) => ScriptValue::Str(v@),
        }
    }
}

impl Value {
    /// The value that a response carries.
    pub fn from_response(response: EvalResponse) -> (value: Value)
        ensures
            value@ == response@,
    {
        match response {
            EvalResponse::Void => Value::Void,
            EvalResponse::Int(v) => Value::Int(v),
            EvalResponse::String(v) => Value::Str(v),
            EvalResponse::Bool(v) => Value::Bool(v),
        }
    }

    /// The response that carries this value.
    pub fn into_response(self) -> (response: EvalResponse)
        ensures
            response@ == self@,
    {
        match self {
            Value::Void => EvalResponse::Void,
            Value::Int(v) => EvalResponse::Int(v),
            Value::Bool(v) => EvalResponse::Bool(v),
            Value::Str(v) => EvalResponse::String(v),
        }
    }
}

/// The text of the error for a value that is not of type `tag`.
pub open spec fn expected_message(tag: EvalResponseType) -> Seq<char> {
    match tag {
        EvalResponseType::Void => "expected void"@,
        EvalResponseType::Int => "expected int"@,
        EvalResponseType::String => "expected string"@,
        EvalResponseType::Bool => "expected bool"@,
    }
}

/// A native host type that stands for exactly one variant of
/// [`ScriptValue`].
pub trait Native: Sized {
    /// The variant that values of this type stand for.
    spec fn tag() -> EvalResponseType;

    /// The value across the boundary that `self` stands for.
    spec fn script_value(&self) -> ScriptValue;

    /// A native value stands for a value of its type's own variant.
    proof fn script_value_has_tag(&self)
        ensures
            self.script_value().tag() == Self::tag(),
    ;
}

/// The model of a native value or an error.
pub open spec fn native_model<V: Native>(r: Result<V, Error>) -> Result<ScriptValue, Failure> {
    match r {
        Ok(native) => Ok(native.script_value()),
        Err(error) => Err(error@),
    }
}

/// What converting `value` to the native type of `tag` gives: the value
/// itself if it is of that type, and a `WrongType` error if not. No value is
/// coerced to another type.
pub open spec fn converted(tag: EvalResponseType, value: ScriptValue) -> Result<
    ScriptValue,
    Failure,
> {
    if value.tag() == tag {
        Ok(value)
    } else {
        Err(Failure::WrongType(expected_message(tag)))
    }
}

/// A native type that a value from the sandbox converts to.
pub trait FromJs: Native {
    /// Converts `value`, which succeeds exactly if it is of this type's
    /// variant.
    fn from_js(value: Value) -> (r: Result<Self, Error>)
        ensures
            native_model(r) == converted(Self::tag(), value@),
    ;

    /// The type of result to ask the sandbox for.
    fn response_type() -> (tag: EvalResponseType)
        ensures
            tag == Self::tag(),
    ;
}

/// A native type that a registered function may return.
pub trait IntoCallbackResponse: Native {
    /// The response that carries `self`.
    fn into_response(&self) -> (response: EvalResponse)
        ensures
            response@ == self.script_value(),
    ;
}

impl Native for () {
    open spec fn tag() -> EvalResponseType {
        EvalResponseType::Void
    }

    open spec fn script_value(&self) -> ScriptValue {
        ScriptValue::Void
    }

    proof fn script_value_has_tag(&self) {
    }
}

impl Native for i32 {
    open spec fn tag() -> EvalResponseType {
        EvalResponseType::Int
    }

    open spec fn script_value(&self) -> ScriptValue {
        ScriptValue::Int(*self as int)
    }

    proof fn script_value_has_tag(&self) {
    }
}

impl Native for bool {
    open spec fn tag() -> EvalResponseType {
        EvalResponseType::Bool
    }

    open spec fn script_value(&self) -> ScriptValue {
        ScriptValue::Bool(*self)
    }

    proof fn script_value_has_tag(&self) {
    }
}

impl Native for String {
    open spec fn tag() -> EvalResponseType {
        EvalResponseType::String
    }

    open spec fn script_value(&self) -> ScriptValue {
        ScriptValue::Str(self@)
    }

    proof fn script_value_has_tag(&self) {
    }
}

impl FromJs for () {
    fn from_js(value: Value) -> (r: Result<Self, Error>) {
        match value {
            Value::Void => Ok(()),
            _ => Err(Error::WrongType("expected void".to_owned())),
        }
    }

    fn response_type() -> (tag: EvalResponseType) {
        EvalResponseType::Void
    }
}

impl FromJs for bool {
    fn from_js(value: Value) -> (r: Result<Self, Error>) {
        match value {
            Value::Bool(v) => Ok(v),
            _ => Err(Error::WrongType("expected bool".to_owned())),
        }
    }

    fn response_type() -> (tag: EvalResponseType) {
        EvalResponseType::Bool
    }
}

impl FromJs for i32 {
    fn from_js(value: Value) -> (r: Result<Self, Error>) {
        match value {
            Value::Int(v) => Ok(v),
            _ => Err(Error::WrongType("expected int".to_owned())),
        }
    }

    fn response_type() -> (tag: EvalResponseType) {
        EvalResponseType::Int
    }
}

impl FromJs for String {
    fn from_js(value: Value) -> (r: Result<Self, Error>) {
        match value {
            Value::Str(v) => Ok(v),
            _ => Err(Error::WrongType("expected string".to_owned())),
        }
    }

    fn response_type() -> (tag: EvalResponseType) {
        EvalResponseType::String
    }
}

impl IntoCallbackResponse for () {
    fn into_response(&self) -> (response: EvalResponse) {
        EvalResponse::Void
    }
}

impl IntoCallbackResponse for i32 {
    fn into_response(&self) -> (response: EvalResponse) {
        EvalResponse::Int(*self)
    }
}

impl IntoCallbackResponse for bool {
    fn into_response(&self) -> (response: EvalResponse) {
        EvalResponse::Bool(*self)
    }
}

impl IntoCallbackResponse for String {
    fn into_response(&self) -> (response: EvalResponse) {
        EvalResponse::String(self.clone())
    }
}

} // verus!
