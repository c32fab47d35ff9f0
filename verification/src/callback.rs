//! Native functions behind one uniform, dynamically callable shape.
//!
//! A native function has parameter and return types of its own. Once it is
//! a [`Callable`], all that is left of them is a signature: the types of
//! values that a call has to pass, in order. The call takes the values from
//! an argument list, converts them, runs the function and converts what it
//! returns; nothing but the values themselves says of what type they are.

use crate::error::{Error, Failure};
use crate::params::{rest, FromParams, Params};
use crate::protocol::{EvalResponse, EvalResponseType, ScriptValue};
use crate::value::{expected_message, IntoCallbackResponse, Native};
use std::marker::PhantomData;
use vstd::prelude::*;

verus! {

/// Whether `args` are as many values as `signature` has parameters, each of
/// the type of its parameter.
pub open spec fn matches_signature(
    signature: Seq<EvalResponseType>,
    args: Seq<ScriptValue>,
) -> bool {
    &&& args.len() == signature.len()
    &&& forall|i: int| 0 <= i < signature.len() ==> (#[trigger] args[i]).tag() == signature[i]
}

/// The text of the error for calling a function of `signature` with `args`
/// that do not match it: it names the first parameter that gets no value or
/// a value of another type, or else says that values are left over.
pub open spec fn mismatch_message(
    signature: Seq<EvalResponseType>,
    args: Seq<ScriptValue>,
) -> Seq<char>
    decreases signature.len(),
{
    if signature.len() == 0 {
        "too many arguments"@
    } else if args.len() == 0 {
        "missing argument"@
    } else if args[0].tag() != signature[0] {
        expected_message(signature[0])
    } else {
        mismatch_message(signature.subrange(1, signature.len() as int), rest(args))
    }
}

/// Past a first argument that matches the first parameter, the error text
/// is that of the remaining arguments against the remaining parameters.
proof fn lemma_mismatch_after_match(signature: Seq<EvalResponseType>, args: Seq<ScriptValue>)
    requires
        signature.len() > 0,
        args.len() > 0,
        args[0].tag() == signature[0],
    ensures
        mismatch_message(signature, args) == mismatch_message(
            signature.subrange(1, signature.len() as int),
            rest(args),
        ),
{
}

/// Whether `function`, of no parameter, may return a value that crosses the
/// boundary as `result`.
pub open spec fn nullary_may_return<F: Fn() -> R, R: Native>(
    function: F,
    result: ScriptValue,
) -> bool {
    exists|r: R| call_ensures(function, (), r) && r.script_value() == result
}

/// Whether `function`, of one parameter, may return a value that crosses
/// the boundary as `result` when it is called with the native value of
/// `args[0]`.
pub open spec fn unary_may_return<F: Fn(P) -> R, P: Native, R: Native>(
    function: F,
    args: Seq<ScriptValue>,
    result: ScriptValue,
) -> bool {
    exists|p: P, r: R|
        p.script_value() == args[0] && call_ensures(function, (p,), r) && r.script_value()
            == result
}

/// Whether `function`, of two parameters, may return a value that crosses
/// the boundary as `result` when it is called with the native values of
/// `args[0]` and `args[1]`.
pub open spec fn binary_may_return<F: Fn(A, B) -> R, A: Native, B: Native, R: Native>(
    function: F,
    args: Seq<ScriptValue>,
    result: ScriptValue,
) -> bool {
    exists|a: A, b: B, r: R|
        a.script_value() == args[0] && b.script_value() == args[1] && call_ensures(
            function,
            (a, b),
            r,
        ) && r.script_value() == result
}

/// The model of what a call gave: a value or an error.
pub open spec fn response_model(r: Result<EvalResponse, Error>) -> Result<ScriptValue, Failure> {
    match r {
        Ok(response) => Ok(response@),
        Err(error) => Err(error@),
    }
}

/// What a registered function looks like once its parameter and return
/// types are hidden.
trait Handler: Send {
    /// The types of the parameters, in order.
    spec fn signature(&self) -> Seq<EvalResponseType>;

    /// Whether the function may return `result` when called with `args`.
    spec fn may_return(&self, args: Seq<ScriptValue>, result: ScriptValue) -> bool;

    /// Whether the function may be called at all.
    spec fn callable(&self) -> bool;

    /// Converts `params` to the native parameters, calls the function and
    /// converts what it returns.
    fn call(&self, params: Params) -> (r: Result<EvalResponse, Error>)
        requires
            self.callable(),
        ensures
            r is Ok <==> matches_signature(self.signature(), params@),
            r matches Ok(response) ==> self.may_return(params@, response@),
            r matches Err(e) ==> e@ == Failure::ArityOrTypeMismatch(
                mismatch_message(self.signature(), params@),
            ),
    ;
}

struct Nullary<F, R> {
    function: F,
    types: PhantomData<R>,
}

impl<F, R> Handler for Nullary<F, R> where F: Fn() -> R + Send, R: IntoCallbackResponse + Send {
    closed spec fn signature(&self) -> Seq<EvalResponseType> {
        Seq::empty()
    }

    closed spec fn may_return(&self, args: Seq<ScriptValue>, result: ScriptValue) -> bool {
        nullary_may_return::<F, R>(self.function, result)
    }

    closed spec fn callable(&self) -> bool {
        call_requires(self.function, ())
    }

    fn call(&self, params: Params) -> (r: Result<EvalResponse, Error>) {
        if !params.is_empty() {
            return Err(Error::ArityOrTypeMismatch("too many arguments".to_owned()));
        }
        let res = (self.function)();
        Ok(res.into_response())
    }
}

struct Unary<F, P, R> {
    function: F,
    types: PhantomData<(P, R)>,
}

impl<F, P, R> Handler for Unary<F, P, R> where
    F: Fn(P) -> R + Send,
    P: FromParams + Send,
    R: IntoCallbackResponse + Send,
{
    closed spec fn signature(&self) -> Seq<EvalResponseType> {
        seq![P::tag()]
    }

    closed spec fn may_return(&self, args: Seq<ScriptValue>, result: ScriptValue) -> bool {
        unary_may_return::<F, P, R>(self.function, args, result)
    }

    closed spec fn callable(&self) -> bool {
        forall|p: P| call_requires(self.function, (p,))
    }

    fn call(&self, params: Params) -> (r: Result<EvalResponse, Error>) {
        let mut params = params;
        let ghost args = params@;
        let p: P = match FromParams::from(&mut params) {
            Ok(p) => p,
            Err(e) => {
                return Err(e);
            },
        };
        if !params.is_empty() {
            proof {
                lemma_mismatch_after_match(self.signature(), args);
            }
            return Err(Error::ArityOrTypeMismatch("too many arguments".to_owned()));
        }
        let res = (self.function)(p);
        Ok(res.into_response())
    }
}

struct Binary<F, A, B, R> {
    function: F,
    types: PhantomData<(A, B, R)>,
}

impl<F, A, B, R> Handler for Binary<F, A, B, R> where
    F: Fn(A, B) -> R + Send,
    A: FromParams + Send,
    B: FromParams + Send,
    R: IntoCallbackResponse + Send,
{
    closed spec fn signature(&self) -> Seq<EvalResponseType> {
        seq![A::tag(), B::tag()]
    }

    closed spec fn may_return(&self, args: Seq<ScriptValue>, result: ScriptValue) -> bool {
        binary_may_return::<F, A, B, R>(self.function, args, result)
    }

    closed spec fn callable(&self) -> bool {
        forall|a: A, b: B| call_requires(self.function, (a, b))
    }

    fn call(&self, params: Params) -> (r: Result<EvalResponse, Error>) {
        let mut params = params;
        let ghost args = params@;
        let a: A = match FromParams::from(&mut params) {
            Ok(p) => p,
            Err(e) => {
                return Err(e);
            },
        };
        proof {
            lemma_mismatch_after_match(self.signature(), args);
            assert(self.signature().subrange(1, 2) == seq![B::tag()]);
        }
        let b: B = match FromParams::from(&mut params) {
            Ok(p) => p,
            Err(e) => {
                return Err(e);
            },
        };
        if !params.is_empty() {
            proof {
                lemma_mismatch_after_match(seq![B::tag()], rest(args));
            }
            return Err(Error::ArityOrTypeMismatch("too many arguments".to_owned()));
        }
        let res = (self.function)(a, b);
        Ok(res.into_response())
    }
}

/// A registered function with its parameter and return types hidden.
pub struct Callable {
    inner: Box<dyn Handler>,
}

impl Callable {
    #[verifier::type_invariant]
    spec fn well_formed(&self) -> bool {
        self.inner.callable()
    }

    /// The types of the parameters of the function, in order.
    pub closed spec fn signature(&self) -> Seq<EvalResponseType> {
        self.inner.signature()
    }

    /// Whether the function may return `result` when called with `args`.
    pub closed spec fn may_return(&self, args: Seq<ScriptValue>, result: ScriptValue) -> bool {
        self.inner.may_return(args, result)
    }

    /// Hides the types of a function of no parameter.
    pub fn nullary<F, R>(function: F) -> (c: Callable) where
        F: Fn() -> R + Send + 'static,
        R: IntoCallbackResponse + Send + 'static,

        requires
            call_requires(function, ()),
        ensures
            c.signature() == Seq::<EvalResponseType>::empty(),
            forall|args: Seq<ScriptValue>, result: ScriptValue|
                c.may_return(args, result) == nullary_may_return::<F, R>(function, result),
    {
        Callable { inner: Box::new(Nullary { function, types: PhantomData }) }
    }

    /// Hides the types of a function of one parameter, which must accept
    /// every value of its parameter type.
    pub fn unary<F, P, R>(function: F) -> (c: Callable) where
        F: Fn(P) -> R + Send + 'static,
        P: FromParams + Send + 'static,
        R: IntoCallbackResponse + Send + 'static,

        requires
            forall|p: P| call_requires(function, (p,)),
        ensures
            c.signature() == seq![P::tag()],
            forall|args: Seq<ScriptValue>, result: ScriptValue|
                c.may_return(args, result) == unary_may_return::<F, P, R>(function, args, result),
    {
        Callable { inner: Box::new(Unary { function, types: PhantomData }) }
    }

    /// Hides the types of a function of two parameters, which must accept
    /// every pair of values of its parameter types.
    pub fn binary<F, A, B, R>(function: F) -> (c: Callable) where
        F: Fn(A, B) -> R + Send + 'static,
        A: FromParams + Send + 'static,
        B: FromParams + Send + 'static,
        R: IntoCallbackResponse + Send + 'static,

        requires
            forall|a: A, b: B| call_requires(function, (a, b)),
        ensures
            c.signature() == seq![A::tag(), B::tag()],
            forall|args: Seq<ScriptValue>, result: ScriptValue|
                c.may_return(args, result) == binary_may_return::<F, A, B, R>(
                    function,
                    args,
                    result,
                ),
    {
        Callable { inner: Box::new(Binary { function, types: PhantomData }) }
    }

    /// Whether calling the function with `args` may give `outcome`: a value
    /// that the function may return, if `args` match the signature, and
    /// the `ArityOrTypeMismatch` error for `args` if they do not.
    pub open spec fn gives(
        &self,
        args: Seq<ScriptValue>,
        outcome: Result<ScriptValue, Failure>,
    ) -> bool {
        match outcome {
            Ok(result) => matches_signature(self.signature(), args) && self.may_return(
                args,
                result,
            ),
            Err(failure) => !matches_signature(self.signature(), args) && failure
                == Failure::ArityOrTypeMismatch(mismatch_message(self.signature(), args)),
        }
    }

    /// Calls the function with `params`.
    ///
    /// The call succeeds exactly if `params` match the signature; the
    /// function is not called otherwise.
    pub fn call(&self, params: Params) -> (r: Result<EvalResponse, Error>)
        ensures
            self.gives(params@, response_model(r)),
    {
        proof {
            use_type_invariant(self);
        }
        self.inner.call(params)
    }
}

/// A native function that can be registered: `P` is the tuple of its
/// parameter types.
///
/// Functions of no, one and two parameters are such functions, if their
/// parameter types are [`FromParams`] and they can be sent to another
/// thread. To become a [`Callable`], such a function has to return an
/// [`IntoCallbackResponse`] that can be sent to another thread too.
///
/// In a proof, the signature of a given function and whether it is callable
/// are known through this trait, but not what the function returns: that
/// is defined under a bound on its return type, which Verus does not
/// resolve for a closure. Where a proof needs it, [`Callable::nullary`],
/// [`Callable::unary`] and [`Callable::binary`] do the same as
/// [`IntoCallback::into_callable`] and speak of the function itself.
pub trait IntoCallback<P> {
    /// The type that the function returns.
    type Returned;

    /// The types of the parameters, in order.
    spec fn signature(&self) -> Seq<EvalResponseType>;

    /// Whether the function accepts every value of its parameter types.
    spec fn callable(&self) -> bool;

    /// Whether the function may return a value that crosses the boundary as
    /// `result` when it is called with the native values of `args`.
    spec fn may_return(&self, args: Seq<ScriptValue>, result: ScriptValue) -> bool where
        Self::Returned: Native,
    ;

    /// Hides the parameter and return types of the function.
    fn into_callable(self) -> (c: Callable) where
        Self::Returned: IntoCallbackResponse + Send + 'static,

        requires
            self.callable(),
        ensures
            c.signature() == self.signature(),
            forall|args: Seq<ScriptValue>, result: ScriptValue|
                c.may_return(args, result) == self.may_return(args, result),
    ;
}

impl<R, F> IntoCallback<()> for F where F: Fn() -> R + Send + 'static {
    type Returned = R;

    open spec fn signature(&self) -> Seq<EvalResponseType> {
        Seq::empty()
    }

    open spec fn callable(&self) -> bool {
        call_requires(*self, ())
    }

    open spec fn may_return(&self, args: Seq<ScriptValue>, result: ScriptValue) -> bool where
        R: Native,
    {
        nullary_may_return::<F, R>(*self, result)
    }

    fn into_callable(self) -> (c: Callable) where R: IntoCallbackResponse + Send + 'static {
        Callable::nullary(self)
    }
}

impl<R, P, F> IntoCallback<P> for F where
    F: Fn(P) -> R + Send + 'static,
    P: FromParams + Send + 'static,
{
    type Returned = R;

    open spec fn signature(&self) -> Seq<EvalResponseType> {
        seq![P::tag()]
    }

    open spec fn callable(&self) -> bool {
        forall|p: P| call_requires(*self, (p,))
    }

    open spec fn may_return(&self, args: Seq<ScriptValue>, result: ScriptValue) -> bool where
        R: Native,
    {
        unary_may_return::<F, P, R>(*self, args, result)
    }

    fn into_callable(self) -> (c: Callable) where R: IntoCallbackResponse + Send + 'static {
        Callable::unary(self)
    }
}

impl<R, F, A, B> IntoCallback<(A, B)> for F where
    F: Fn(A, B) -> R + Send + 'static,
    A: FromParams + Send + 'static,
    B: FromParams + Send + 'static,
{
    type Returned = R;

    open spec fn signature(&self) -> Seq<EvalResponseType> {
        seq![A::tag(), B::tag()]
    }

    open spec fn callable(&self) -> bool {
        forall|a: A, b: B| call_requires(*self, (a, b))
    }

    open spec fn may_return(&self, args: Seq<ScriptValue>, result: ScriptValue) -> bool where
        R: Native,
    {
        binary_may_return::<F, A, B, R>(*self, args, result)
    }

    fn into_callable(self) -> (c: Callable) where R: IntoCallbackResponse + Send + 'static {
        Callable::binary(self)
    }
}

} // verus!
