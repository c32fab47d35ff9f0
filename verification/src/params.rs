//! The ordered argument list of one call, and the native types that are
//! taken from its front.

use crate::error::{Error, Failure};
use crate::protocol::{CallRegisteredParam, EvalResponseType, ScriptValue};
use crate::value::{expected_message, native_model, Native};
use std::collections::VecDeque;
use vstd::prelude::*;

verus! {

/// The models of `params`, in order.
pub open spec fn param_values(params: Seq<CallRegisteredParam>) -> Seq<ScriptValue> {
    params.map_values(|param: CallRegisteredParam| param@)
}

/// What is left of `args` once its first value, if it has one, is taken.
pub open spec fn rest(args: Seq<ScriptValue>) -> Seq<ScriptValue> {
    if args.len() == 0 {
        args
    } else {
        args.subrange(1, args.len() as int)
    }
}

/// What taking a native value of type `tag` from the front of `args` gives:
/// the first argument if there is one and it is of that type, and an
/// `ArityOrTypeMismatch` error if not.
pub open spec fn taken(tag: EvalResponseType, args: Seq<ScriptValue>) -> Result<
    ScriptValue,
    Failure,
> {
    if args.len() == 0 {
        Err(Failure::ArityOrTypeMismatch("missing argument"@))
    } else if args[0].tag() != tag {
        Err(Failure::ArityOrTypeMismatch(expected_message(tag)))
    } else {
        Ok(args[0])
    }
}

/// The arguments of a call that have not been taken yet, first one first.
pub struct Params {
    inner: VecDeque<CallRegisteredParam>,
}

impl View for Params {
    type V = Seq<ScriptValue>;

    closed spec fn view(&self) -> Seq<ScriptValue> {
        param_values(self.inner@)
    }
}

impl Params {
    /// The argument list that holds `params` in their order.
    pub fn new(params: Vec<CallRegisteredParam>) -> (list: Params)
        ensures
            list@ == param_values(params@),
    {
        let mut params = params;
        let mut inner: VecDeque<CallRegisteredParam> = VecDeque::new();
        let ghost all = params@;
        loop
            invariant
                params@ + inner@ == all,
            ensures
                inner@ == all,
            decreases params.len(),
        {
            match params.pop() {
                Some(param) => {
                    inner.push_front(param);
                },
                None => {
                    break ;
                },
            }
        }
        Params { inner }
    }

    /// The number of arguments that are left.
    pub fn len(&self) -> (n: usize)
        ensures
            n == self@.len(),
    {
        self.inner.len()
    }

    /// Whether no argument is left.
    pub fn is_empty(&self) -> (empty: bool)
        ensures
            empty == (self@.len() == 0),
    {
        self.inner.len() == 0
    }

    /// Takes the first argument off the list.
    pub fn pop_front(&mut self) -> (front: Option<CallRegisteredParam>)
        ensures
            final(self)@ == rest(old(self)@),
            front is Some <==> old(self)@.len() > 0,
            front matches Some(param) ==> param@ == old(self)@[0],
    {
        let front = self.inner.pop_front();
        proof {
            assert(param_values(self.inner@) =~= rest(param_values(old(self).inner@)));
        }
        front
    }
}

/// A native type that a registered function may take as a parameter.
pub trait FromParams: Native {
    /// Takes the first argument off `params` and converts it.
    ///
    /// The argument is taken whether or not it converts. The conversion
    /// succeeds exactly if there is an argument and it is of this type's
    /// variant.
    fn from(params: &mut Params) -> (r: Result<Self, Error>)
        ensures
            final(params)@ == rest(old(params)@),
            native_model(r) == taken(Self::tag(), old(params)@),
    ;
}

impl FromParams for String {
    fn from(params: &mut Params) -> (r: Result<Self, Error>) {
        match params.pop_front() {
            Some(CallRegisteredParam::String(v)) => Ok(v),
            Some(_) => Err(Error::ArityOrTypeMismatch("expected string".to_owned())),
            None => Err(Error::ArityOrTypeMismatch("missing argument".to_owned())),
        }
    }
}

impl FromParams for bool {
    fn from(params: &mut Params) -> (r: Result<Self, Error>) {
        match params.pop_front() {
            Some(CallRegisteredParam::Bool(v)) => Ok(v),
            Some(_) => Err(Error::ArityOrTypeMismatch("expected bool".to_owned())),
            None => Err(Error::ArityOrTypeMismatch("missing argument".to_owned())),
        }
    }
}

impl FromParams for i32 {
    fn from(params: &mut Params) -> (r: Result<Self, Error>) {
        match params.pop_front() {
            Some(CallRegisteredParam::Int(v)) => Ok(v),
            Some(_) => Err(Error::ArityOrTypeMismatch("expected int".to_owned())),
            None => Err(Error::ArityOrTypeMismatch("missing argument".to_owned())),
        }
    }
}

} // verus!
