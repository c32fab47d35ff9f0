//! The arguments of a call in script, as the script engine hands them over.
//!
//! The engine is `rquickjs`. What this module says of it is taken on trust:
//! Verus reads the contracts below and not the code that they speak of.

use crate::guest::JsValue;
use crate::protocol::ScriptValue;
use rquickjs::Type;
use vstd::prelude::*;

verus! {

/// The reader of the arguments that the engine calls a native function
/// with, one at a time and in order.
#[verifier::external_type_specification]
#[verifier::external_body]
pub struct ExParamsAccessor<'a, 'js>(rquickjs::function::ParamsAccessor<'a, 'js>);

/// The arguments that `accessor` has not handed out yet, in order, each as
/// the value across the boundary that it stands for: a number that the
/// engine holds as a 32-bit integer, a boolean or a string as itself,
/// `undefined` as `Void`, and anything else as `None`, a string that is not
/// UTF-8 too.
pub uninterp spec fn pending_arguments(accessor: rquickjs::function::ParamsAccessor) -> Seq<
    Option<ScriptValue>,
>;

/// Calls `ParamsAccessor::len`, which gives the number of arguments not
/// handed out yet.
#[verifier::external_body]
pub(crate) fn pending_count(accessor: &rquickjs::function::ParamsAccessor) -> (count: usize)
    ensures
        count == pending_arguments(*accessor).len(),
{
    accessor.len()
}

/// Calls `ParamsAccessor::arg`, which hands out the next argument and
/// panics when none is left, and reads the argument with `Value::type_of`,
/// `Value::as_int`, `Value::as_bool`, `Value::as_string` and
/// `String::to_string`.
///
/// The contract claims that the argument handed out is the first of those
/// pending, that the others stay pending in their order, and that what is
/// read from the argument is the value that it stands for.
#[verifier::external_body]
pub(crate) fn next_argument(accessor: &mut rquickjs::function::ParamsAccessor) -> (value: JsValue)
    requires
        pending_arguments(*old(accessor)).len() > 0,
    ensures
        value@ == pending_arguments(*old(accessor))[0],
        pending_arguments(*final(accessor)) == pending_arguments(*old(accessor)).subrange(
            1,
            pending_arguments(*old(accessor)).len() as int,
        ),
{
    let value = accessor.arg();
    match value.type_of() {
        Type::Undefined => JsValue::Undefined,
        Type::Int => value.as_int().map_or(JsValue::Unsupported, JsValue::Int),
        Type::Bool => value.as_bool().map_or(JsValue::Unsupported, JsValue::Bool),
        Type::String => match value.as_string().map(rquickjs::String::to_string) {
            Some(Ok(text)) => JsValue::String(text),
            _ => JsValue::Unsupported,
        },
        _ => JsValue::Unsupported,
    }
}

} // verus!
