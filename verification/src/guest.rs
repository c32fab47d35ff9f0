//! The guest side: what the sandbox answers to the host's requests, and how
//! it forwards the calls that script makes to registered functions.
//!
//! The script engine is run by the caller, who hands over what the engine
//! made of a source as a [`JsValue`] and gets a [`JsValue`] back for what a
//! call returns. Of the engine itself only the arguments of a call are read
//! here, as the engine hands them over.

use crate::engine::{next_argument, pending_arguments, pending_count};
use crate::error::{Error, Failure};
use crate::params::param_values;
use crate::protocol;
use crate::protocol::{
    answer_model, CallRegisteredParam, CallRegisteredRequest, EvalResponse, EvalResponseType,
    RegisterRequest, ScriptValue, WireError,
};
use crate::reply::Reply;
use crate::value::expected_message;
use vstd::prelude::*;

verus! {

/// What the dispatcher reads from a value of the script engine.
#[derive(Debug, Clone, PartialEq, Eq)]
pub enum JsValue {
    /// `undefined`.
    Undefined,
    /// A number that the engine holds as a 32-bit integer.
    Int(i32),
    /// A boolean.
    Bool(bool),
    /// A string.
    String(String),
    /// Any other value: an object, an array, a function, `null`, a number
    /// that is no 32-bit integer.
    Unsupported,
}

impl View for JsValue {
    type V = Option<ScriptValue>;

    /// The value across the boundary that this value stands for, if there
    /// is one. `undefined` stands for `Void`.
    open spec fn view(&self) -> Option<ScriptValue> {
        match self {
            JsValue::Undefined => Some(ScriptValue::Void),
            JsValue::Int(v) => Some(ScriptValue::Int(*v as int)),
            JsValue::Bool(v) => Some(ScriptValue::Bool(*v)),
            JsValue::String(v) => Some(ScriptValue::Str(v@)),
            JsValue::Unsupported => None,
        }
    }
}

/// What the sandbox answers to an evaluation that asked for the type `tag`,
/// where `outcome` is the model of the value that the engine evaluated the
/// source to, or the text of the exception that it raised.
///
/// A value of the type asked for is answered as it is. Any other value,
/// one that has no model too, is answered as `WrongType`: no value is
/// coerced, and `Void` is answered for `undefined` alone. An exception is
/// answered as a `Message`.
pub open spec fn answer(
    tag: EvalResponseType,
    outcome: Result<Option<ScriptValue>, Seq<char>>,
) -> Result<ScriptValue, WireError> {
    match outcome {
        Ok(Some(value)) => if value.tag() == tag {
            Ok(value)
        } else {
            Err(WireError::WrongType(expected_message(tag)))
        },
        Ok(None) => Err(WireError::WrongType(expected_message(tag))),
        Err(text) => Err(WireError::Message(text)),
    }
}

/// The model of what the engine made of a source.
pub open spec fn outcome_model(outcome: Result<JsValue, String>) -> Result<
    Option<ScriptValue>,
    Seq<char>,
> {
    match outcome {
        Ok(value) => Ok(value@),
        Err(text) => Err(text@),
    }
}

impl JsValue {
    /// The engine value for a response: `undefined` for `Void`.
    pub fn from_response(response: EvalResponse) -> (value: JsValue)
        ensures
            value@ == Some(response@),
    {
        match response {
            EvalResponse::Void => JsValue::Undefined,
            EvalResponse::Int(v) => JsValue::Int(v),
            EvalResponse::String(v) => JsValue::String(v),
            EvalResponse::Bool(v) => JsValue::Bool(v),
        }
    }

    /// The response of type `response_type` for this value, if the value is
    /// of that type. No value is coerced to another type: `Void` is
    /// answered for `undefined` alone.
    pub fn into_response(self, response_type: EvalResponseType) -> (r: Result<
        EvalResponse,
        protocol::Error,
    >)
        ensures
            answer_model(r) == answer(response_type, Ok(self@)),
    {
        match (response_type, self) {
            (EvalResponseType::Void, JsValue::Undefined) => Ok(EvalResponse::Void),
            (EvalResponseType::Int, JsValue::Int(v)) => Ok(EvalResponse::Int(v)),
            (EvalResponseType::String, JsValue::String(v)) => Ok(EvalResponse::String(v)),
            (EvalResponseType::Bool, JsValue::Bool(v)) => Ok(EvalResponse::Bool(v)),
            (EvalResponseType::Void, _) => Err(
                protocol::Error::WrongType("expected void".to_owned()),
            ),
            (EvalResponseType::Int, _) => Err(
                protocol::Error::WrongType("expected int".to_owned()),
            ),
            (EvalResponseType::String, _) => Err(
                protocol::Error::WrongType("expected string".to_owned()),
            ),
            (EvalResponseType::Bool, _) => Err(
                protocol::Error::WrongType("expected bool".to_owned()),
            ),
        }
    }
}

/// The models of `values`, in order.
pub open spec fn js_values(values: Seq<JsValue>) -> Seq<Option<ScriptValue>> {
    values.map_values(|value: JsValue| value@)
}

/// The number of arguments that a call supplies: those up to the last one
/// that is not `undefined`. Trailing `undefined` arguments count as absent.
pub open spec fn supplied(args: Seq<Option<ScriptValue>>) -> nat
    decreases args.len(),
{
    if args.len() == 0 {
        0
    } else if args.last() == Some(ScriptValue::Void) {
        supplied(args.drop_last())
    } else {
        args.len()
    }
}

/// Whether `arg` can be passed to a registered function: it is an integer,
/// a boolean or a string.
pub open spec fn passable(arg: Option<ScriptValue>) -> bool {
    arg matches Some(value) && value != ScriptValue::Void
}

/// Whether every one of `args` can be passed to a registered function.
pub open spec fn all_passable(args: Seq<Option<ScriptValue>>) -> bool {
    forall|i: int| 0 <= i < args.len() ==> passable(#[trigger] args[i])
}

/// The arguments that a call with the engine values `given` passes to the
/// host: those supplied, if every one of them can be passed, and an
/// `Unrepresentable` error if not.
pub open spec fn forwarded(given: Seq<Option<ScriptValue>>) -> Result<Seq<ScriptValue>, Failure> {
    let kept = given.take(supplied(given) as int);
    if all_passable(kept) {
        Ok(kept.map_values(|arg: Option<ScriptValue>| arg.unwrap()))
    } else {
        Err(Failure::Unrepresentable("unsupported argument type"@))
    }
}

/// The dispatcher of the host's requests.
pub struct Dispatcher;

impl Dispatcher {
    /// The answer to an evaluation that asked for `response_type`:
    /// `outcome` is the value that the engine evaluated the source to, or
    /// the text of the exception that it raised.
    ///
    /// An exception is answered as a `Message`, a value of another type
    /// than asked for as `WrongType`.
    pub fn eval(response_type: EvalResponseType, outcome: Result<JsValue, String>) -> (r: Result<
        EvalResponse,
        protocol::Error,
    >)
        ensures
            answer_model(r) == answer(response_type, outcome_model(outcome)),
    {
        match outcome {
            Ok(value) => value.into_response(response_type),
            Err(text) => Err(protocol::Error::Message(text)),
        }
    }

    /// The forwarder to install in the global scope under the name that
    /// `request` announces.
    pub fn register(request: RegisterRequest) -> (handler: CallbackHandler)
        ensures
            handler.name@ == request.name@,
    {
        CallbackHandler { name: request.name }
    }
}

/// The function that stands in the sandbox's global scope for a function
/// registered on the host.
#[derive(Debug, Clone, PartialEq, Eq)]
pub struct CallbackHandler {
    /// The name of the registered function.
    pub name: String,
}

impl CallbackHandler {
    /// First step of a forwarded call, on the arguments as the engine hands
    /// them over: the request that carries the arguments which script
    /// supplied, in order. Every argument that `accessor` has left is taken.
    ///
    /// Trailing `undefined` arguments are absent. Fails with
    /// `Unrepresentable` if one of the others is `undefined` or of a type
    /// that does not cross the boundary.
    pub fn call(&self, accessor: &mut rquickjs::function::ParamsAccessor) -> (r: Result<
        CallRegisteredRequest,
        Error,
    >)
        ensures
            pending_arguments(*final(accessor)).len() == 0,
            match r {
                Ok(request) => request.name@ == self.name@ && forwarded(
                    pending_arguments(*old(accessor)),
                ) == Ok::<Seq<ScriptValue>, Failure>(param_values(request.params@)),
                Err(e) => forwarded(pending_arguments(*old(accessor))) == Err::<
                    Seq<ScriptValue>,
                    Failure,
                >(e@),
            },
    {
        let ghost given = pending_arguments(*accessor);
        let mut args: Vec<JsValue> = Vec::new();
        while pending_count(accessor) > 0
            invariant
                js_values(args@) + pending_arguments(*accessor) == given,
            decreases pending_arguments(*accessor).len(),
        {
            let value = next_argument(accessor);
            args.push(value);
            assert(js_values(args@) + pending_arguments(*accessor) =~= given);
        }
        assert(js_values(args@) =~= given);
        self.forward(&args)
    }

    /// First step of a forwarded call, on the arguments as they were read
    /// from the engine: the request that carries the arguments which script
    /// supplied, in order.
    ///
    /// Trailing `undefined` arguments are absent. Fails with
    /// `Unrepresentable` if one of the others is `undefined` or of a type
    /// that does not cross the boundary.
    pub fn forward(&self, args: &Vec<JsValue>) -> (r: Result<CallRegisteredRequest, Error>)
        ensures
            match r {
                Ok(request) => request.name@ == self.name@ && forwarded(js_values(args@)) == Ok::<
                    Seq<ScriptValue>,
                    Failure,
                >(param_values(request.params@)),
                Err(e) => forwarded(js_values(args@)) == Err::<Seq<ScriptValue>, Failure>(e@),
            },
    {
        let ghost given = js_values(args@);
        let mut count: usize = args.len();
        proof {
            assert(given.take(count as int) == given);
        }
        while count > 0 && matches!(args[count - 1], JsValue::Undefined)
            invariant
                count <= args.len(),
                given == js_values(args@),
                supplied(given) == supplied(given.take(count as int)),
            decreases count,
        {
            proof {
                let front = given.take(count as int);
                assert(front.last() == Some(ScriptValue::Void));
                assert(front.drop_last() == given.take(count as int - 1));
            }
            count = count - 1;
        }
        proof {
            let front = given.take(count as int);
            if count > 0 {
                assert(front.last() == args@[count as int - 1]@);
            }
            assert(supplied(given) == count);
        }
        let ghost kept = given.take(count as int);
        let mut params: Vec<CallRegisteredParam> = Vec::new();
        let mut i: usize = 0;
        while i < count
            invariant
                i <= count <= args.len(),
                given == js_values(args@),
                kept == given.take(count as int),
                supplied(given) == count,
                params@.len() == i,
                forall|j: int| 0 <= j < i ==> passable(#[trigger] kept[j]),
                forall|j: int| 0 <= j < i ==> (#[trigger] params@[j])@ == kept[j].unwrap(),
            decreases count - i,
        {
            let param = match &args[i] {
                JsValue::Int(v) => CallRegisteredParam::Int(*v),
                JsValue::String(v) => CallRegisteredParam::String(v.clone()),
                JsValue::Bool(v) => CallRegisteredParam::Bool(*v),
                _ => {
                    assert(kept[i as int] == args@[i as int]@);
                    assert(!passable(kept[i as int]));
                    return Err(Error::Unrepresentable("unsupported argument type".to_owned()));
                },
            };
            assert(kept[i as int] == args@[i as int]@);
            params.push(param);
            i = i + 1;
        }
        proof {
            assert(param_values(params@) =~= kept.map_values(
                |arg: Option<ScriptValue>| arg.unwrap(),
            ));
        }
        Ok(CallRegisteredRequest { name: self.name.clone(), params })
    }

    /// Second step of a forwarded call: the engine value of what the host
    /// answered, which the call in script evaluates to.
    ///
    /// An error that the host reported is surfaced, an undecodable reply is
    /// a `Protocol` error, and a call cut short is a script error.
    pub fn returned(reply: Reply<EvalResponse>) -> (r: Result<JsValue, Error>)
        ensures
            match reply.outcome() {
                Ok(response) => r matches Ok(value) && value@ == Some(response@),
                Err(failure) => r matches Err(e) && e@ == failure,
            },
    {
        match reply.payload() {
            Ok(response) => Ok(JsValue::from_response(response)),
            Err(error) => Err(error),
        }
    }
}

} // verus!
