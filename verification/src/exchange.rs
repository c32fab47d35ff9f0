//! What the two sides make of one exchange together.
//!
//! The host side and the guest side are written apart. The statements here
//! put a step of one side behind a step of the other and say what comes out
//! on the far end.

use crate::callback::Callable;
use crate::error::{Error, Failure, ScriptFailure};
use crate::guest::{answer, forwarded, passable, supplied};
use crate::protocol;
use crate::protocol::{EvalResponse, EvalResponseType, RegisterRequest, ScriptValue, WireError};
use crate::reply::Reply;
use crate::session::{callback_answer, eval_outcome, Context};
use crate::value::{converted, expected_message, Native};
use vstd::prelude::*;

verus! {

/// An evaluation gives the value that the engine made of the source exactly
/// if that value is of the type asked for: the sandbox then answers with
/// it, and the host converts the answer back to it. For a value of another
/// type both sides say `WrongType`.
pub proof fn lemma_eval_gives_the_value(
    tag: EvalResponseType,
    value: ScriptValue,
    response: EvalResponse,
)
    requires
        response@ == value,
    ensures
        value.tag() == tag ==> {
            &&& answer(tag, Ok(Some(value))) == Ok::<ScriptValue, WireError>(value)
            &&& eval_outcome(tag, Reply::Returned(response)) == Ok::<ScriptValue, Failure>(value)
        },
        value.tag() != tag ==> {
            &&& answer(tag, Ok(Some(value))) == Err::<ScriptValue, WireError>(
                WireError::WrongType(expected_message(tag)),
            )
            &&& eval_outcome(tag, Reply::Returned(response)) == Err::<ScriptValue, Failure>(
                Failure::WrongType(expected_message(tag)),
            )
        },
{
}

/// An evaluation that asks for another type than the engine's value has
/// fails with `WrongType` on the host, whether the value has a model or
/// not. So an evaluation that asks for `Void` succeeds for `undefined`
/// alone.
pub proof fn lemma_eval_of_another_type_fails(
    tag: EvalResponseType,
    value: Option<ScriptValue>,
    error: protocol::Error,
)
    requires
        !(value matches Some(model) && model.tag() == tag),
        answer(tag, Ok(value)) == Err::<ScriptValue, WireError>(error@),
    ensures
        eval_outcome(tag, Reply::Failed(error)) == Err::<ScriptValue, Failure>(
            Failure::WrongType(expected_message(tag)),
        ),
{
}

/// An evaluation whose source the engine rejects, or whose script raises,
/// fails with a script error of the engine's text on the host, whatever
/// type was asked for.
pub proof fn lemma_eval_of_failing_script_fails(
    tag: EvalResponseType,
    text: Seq<char>,
    error: protocol::Error,
)
    requires
        answer(tag, Err(text)) == Err::<ScriptValue, WireError>(error@),
    ensures
        eval_outcome(tag, Reply::Failed(error)) == Err::<ScriptValue, Failure>(
            Failure::Script(ScriptFailure::Raised(text)),
        ),
{
}

/// A native value that is sent across the boundary converts back to a
/// native value of its own type that stands for the same value.
pub proof fn lemma_native_value_converts_back<V: Native>(native: V)
    ensures
        converted(V::tag(), native.script_value()) == Ok::<ScriptValue, Failure>(
            native.script_value(),
        ),
{
    native.script_value_has_tag();
}

/// A name that a session announces can be called: the function is in the
/// table when the request exists, so a call of the name is never answered
/// with `NotFound`, and gives what the function gives.
pub proof fn lemma_announced_name_is_registered(
    before: Context,
    after: Context,
    name: Seq<char>,
    callable: Callable,
    r: Result<RegisterRequest, Error>,
    args: Seq<ScriptValue>,
    outcome: Result<ScriptValue, Failure>,
)
    requires
        before.registers(&after, name, callable, r),
        r is Ok,
    ensures
        after.is_open(),
        after.callbacks().contains_key(name),
        after.serves(name, args, outcome) == callable.gives(args, outcome),
{
}

/// A call in script passes to the host exactly the arguments that it
/// supplies, in their order, if each of them is an integer, a boolean or a
/// string.
pub proof fn lemma_call_forwards_its_arguments(given: Seq<Option<ScriptValue>>)
    requires
        forall|i: int| 0 <= i < given.len() ==> passable(#[trigger] given[i]),
    ensures
        forwarded(given) matches Ok(args) && args.len() == given.len() && forall|i: int|
            0 <= i < given.len() ==> Some(#[trigger] args[i]) == given[i],
{
    if given.len() > 0 {
        assert(passable(given.last()));
    }
    assert(supplied(given) == given.len());
    assert(given.take(given.len() as int) == given);
}

/// What the host answers for a call reaches script as it is: a value as the
/// value, an error as a `Message` whose text names the kind of the error.
/// In particular arguments that do not match the function's signature
/// reach script as the text of an `ArityOrTypeMismatch`.
pub proof fn lemma_call_failure_reaches_script(name: Seq<char>, text: Seq<char>)
    ensures
        callback_answer(name, Some(Err(Failure::ArityOrTypeMismatch(text)))) == Err::<
            ScriptValue,
            WireError,
        >(WireError::Message("arity or type mismatch: "@ + text)),
        callback_answer(name, None) == Err::<ScriptValue, WireError>(
            WireError::Message("dispatch: "@ + name),
        ),
{
}

} // verus!
