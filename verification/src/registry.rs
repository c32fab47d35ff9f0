//! The table of registered functions, by name.

use crate::callback::{response_model, Callable};
use crate::error::{Error, Failure};
use crate::params::{param_values, Params};
use crate::protocol::{CallRegisteredParam, EvalResponse, ScriptValue};
use vstd::hash_map::StringHashMap;
use vstd::prelude::*;

verus! {

/// Whether calling `name` in `table` with `args` may give `outcome`: what
/// the function under that name gives, or `NotFound` if there is none.
pub open spec fn invoked(
    table: Map<Seq<char>, Callable>,
    name: Seq<char>,
    args: Seq<ScriptValue>,
    outcome: Result<ScriptValue, Failure>,
) -> bool {
    if table.contains_key(name) {
        table[name].gives(args, outcome)
    } else {
        outcome == Err::<ScriptValue, Failure>(Failure::NotFound(name))
    }
}

/// The functions that a session has registered.
///
/// A name stands for at most one function: registering under a name that is
/// taken replaces the function that held it.
pub struct Registry {
    callbacks: StringHashMap<Callable>,
}

impl View for Registry {
    type V = Map<Seq<char>, Callable>;

    closed spec fn view(&self) -> Map<Seq<char>, Callable> {
        self.callbacks@
    }
}

impl Registry {
    /// A registry without functions.
    pub fn new() -> (registry: Registry)
        ensures
            registry@ == Map::<Seq<char>, Callable>::empty(),
    {
        Registry { callbacks: StringHashMap::new() }
    }

    /// Whether a function is registered under `name`.
    pub fn contains(&self, name: &str) -> (found: bool)
        ensures
            found == self@.contains_key(name@),
    {
        self.callbacks.contains_key(name)
    }

    /// Puts `callback` under `name`, in place of what was there.
    pub fn register(&mut self, name: String, callback: Callable)
        ensures
            final(self)@ == old(self)@.insert(name@, callback),
    {
        self.callbacks.insert(name, callback);
    }

    /// Calls the function registered under `name` with `args`.
    ///
    /// Fails with `NotFound` if there is none, and with
    /// `ArityOrTypeMismatch` if `args` do not match its signature.
    pub fn invoke(&self, name: &str, args: Vec<CallRegisteredParam>) -> (r: Result<
        EvalResponse,
        Error,
    >)
        ensures
            invoked(self@, name@, param_values(args@), response_model(r)),
    {
        match self.callbacks.get(name) {
            Some(callback) => callback.call(Params::new(args)),
            None => Err(Error::NotFound(name.to_owned())),
        }
    }
}

/// Of two functions registered under one name, only the second is left: the
/// table is the one that registering the second alone would have made, and
/// a call of the name gives what the second function gives.
pub proof fn lemma_last_registration_wins(
    table: Map<Seq<char>, Callable>,
    name: Seq<char>,
    first: Callable,
    second: Callable,
    args: Seq<ScriptValue>,
    outcome: Result<ScriptValue, Failure>,
)
    ensures
        table.insert(name, first).insert(name, second) == table.insert(name, second),
        invoked(table.insert(name, first).insert(name, second), name, args, outcome)
            == second.gives(args, outcome),
{
    assert(table.insert(name, first).insert(name, second) =~= table.insert(name, second));
}

/// Registering under one name leaves the functions under other names as
/// they were.
pub proof fn lemma_registration_is_by_name(
    table: Map<Seq<char>, Callable>,
    name: Seq<char>,
    callback: Callable,
    other: Seq<char>,
    args: Seq<ScriptValue>,
    outcome: Result<ScriptValue, Failure>,
)
    requires
        other != name,
    ensures
        invoked(table.insert(name, callback), other, args, outcome) == invoked(
            table,
            other,
            args,
            outcome,
        ),
{
}

} // verus!
