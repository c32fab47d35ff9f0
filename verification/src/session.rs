//! The host side: sessions that ask for evaluations, register native
//! functions and serve the calls that script makes to them.
//!
//! Every operation that crosses the boundary comes in two steps. The first
//! makes the request that is to be sent; the second takes what came back, as
//! a [`Reply`], and gives the result. Sending is left to the caller.

use crate::callback::{response_model, Callable, IntoCallback};
use crate::error::{Error, Failure};
use crate::params::param_values;
use crate::protocol;
use crate::protocol::{
    answer_model, CallRegisteredRequest, EvalRequest, EvalResponse, EvalResponseType,
    RegisterRequest, ScriptValue, WireError,
};
use crate::registry::{invoked, Registry};
use crate::reply::Reply;
use crate::value::{converted, native_model, FromJs, IntoCallbackResponse, Native, Value};
use vstd::prelude::*;

verus! {

/// What an evaluation that asked for the type `tag` gives for `reply`: the
/// value of a response of that type, `WrongType` for a response of another
/// type, and the error that stands for any other reply.
pub open spec fn eval_outcome(tag: EvalResponseType, reply: Reply<EvalResponse>) -> Result<
    ScriptValue,
    Failure,
> {
    match reply.outcome() {
        Ok(response) => converted(tag, response@),
        Err(failure) => Err(failure),
    }
}

/// What a registration gives for `reply`: success for an empty payload, a
/// `Protocol` error for any other payload, and the error that stands for
/// any other reply.
pub open spec fn register_outcome(reply: Reply<Vec<u8>>) -> Result<(), Failure> {
    match reply.outcome() {
        Ok(payload) => if payload@.len() == 0 {
            Ok(())
        } else {
            Err(Failure::Protocol("unexpected payload"@))
        },
        Err(failure) => Err(failure),
    }
}

/// What the host answers the sandbox for a call to the function `name`,
/// where `outcome` is what serving the call gave, or `None` if the function
/// panicked: the value, or a `Message` with the text of the error. A panic
/// is a `Dispatch` error.
pub open spec fn callback_answer(
    name: Seq<char>,
    outcome: Option<Result<ScriptValue, Failure>>,
) -> Result<ScriptValue, WireError> {
    match outcome {
        Some(Ok(value)) => Ok(value),
        Some(Err(failure)) => Err(WireError::Message(failure.text())),
        None => Err(WireError::Message(Failure::Dispatch(name).text())),
    }
}

/// One global scope of the sandbox with the functions registered in it.
pub struct Context {
    resource: u32,
    callbacks: Registry,
    open: bool,
}

impl Context {
    /// The handle of this session's scope in the sandbox.
    pub closed spec fn spec_resource(&self) -> u32 {
        self.resource
    }

    /// Whether the session is open.
    pub closed spec fn spec_is_open(&self) -> bool {
        self.open
    }

    /// The registered functions, by name.
    pub closed spec fn callbacks(&self) -> Map<Seq<char>, Callable> {
        self.callbacks@
    }

    /// Whether a call that script makes to `name` with `args` may be given
    /// `outcome`: `InvalidState` if the session is closed, and else what
    /// the table of functions gives.
    pub open spec fn serves(
        &self,
        name: Seq<char>,
        args: Seq<ScriptValue>,
        outcome: Result<ScriptValue, Failure>,
    ) -> bool {
        if self.is_open() {
            invoked(self.callbacks(), name, args, outcome)
        } else {
            outcome == Err::<ScriptValue, Failure>(Failure::InvalidState)
        }
    }

    /// Whether the first step of an evaluation of `source` that asks for
    /// the type `tag` gives `r`: the request of that source and type if the
    /// session is open, and `InvalidState` if it is closed.
    pub open spec fn requests(
        &self,
        tag: EvalResponseType,
        source: Seq<char>,
        r: Result<EvalRequest, Error>,
    ) -> bool {
        if self.is_open() {
            r matches Ok(request) && request.source@ == source && request.response_type == tag
        } else {
            r matches Err(e) && e@ == Failure::InvalidState
        }
    }

    /// Whether registering `callable` under `name` takes this session to
    /// `after` and gives `r`: an open session has the function put under
    /// the name, in place of what was there, and gives the request that
    /// announces the name; a closed session is left as it is and gives
    /// `InvalidState`.
    pub open spec fn registers(
        &self,
        after: &Context,
        name: Seq<char>,
        callable: Callable,
        r: Result<RegisterRequest, Error>,
    ) -> bool {
        &&& after.resource() == self.resource()
        &&& after.is_open() == self.is_open()
        &&& if self.is_open() {
            &&& r matches Ok(request) && request.name@ == name
            &&& after.callbacks() == self.callbacks().insert(name, callable)
        } else {
            &&& r matches Err(e) && e@ == Failure::InvalidState
            &&& after.callbacks() == self.callbacks()
        }
    }

    /// An open session on the scope `resource`, without functions.
    pub fn new(resource: u32) -> (ctx: Context)
        ensures
            ctx.resource() == resource,
            ctx.is_open(),
            ctx.callbacks() == Map::<Seq<char>, Callable>::empty(),
    {
        Context { resource, callbacks: Registry::new(), open: true }
    }

    /// The handle of this session's scope in the sandbox.
    #[verifier::when_used_as_spec(spec_resource)]
    pub fn resource(&self) -> (resource: u32)
        ensures
            resource == self.resource(),
    {
        self.resource
    }

    /// Whether the session is open.
    #[verifier::when_used_as_spec(spec_is_open)]
    pub fn is_open(&self) -> (open: bool)
        ensures
            open == self.is_open(),
    {
        self.open
    }

    /// Whether a function is registered under `name`.
    pub fn is_registered(&self, name: &str) -> (found: bool)
        ensures
            found == self.callbacks().contains_key(name@),
    {
        self.callbacks.contains(name)
    }

    /// Closes the session and gives the handle that is to be released.
    ///
    /// Fails with `InvalidState` if the session is closed already.
    pub fn close(&mut self) -> (r: Result<u32, Error>)
        ensures
            !final(self).is_open(),
            final(self).resource() == old(self).resource(),
            final(self).callbacks() == old(self).callbacks(),
            old(self).is_open() ==> r == Ok::<u32, Error>(old(self).resource()),
            !old(self).is_open() ==> (r matches Err(e) && e@ == Failure::InvalidState),
    {
        if !self.open {
            return Err(Error::InvalidState);
        }
        self.open = false;
        Ok(self.resource)
    }

    /// First step of an evaluation: the request to send, which asks for the
    /// type of `V`.
    ///
    /// Fails with `InvalidState` if the session is closed.
    pub fn eval<V: FromJs>(&self, source: String) -> (r: Result<EvalRequest, Error>)
        ensures
            self.requests(V::tag(), source@, r),
    {
        if !self.open {
            return Err(Error::InvalidState);
        }
        Ok(EvalRequest { source, response_type: V::response_type() })
    }

    /// Second step of an evaluation: the native value of what came back.
    ///
    /// A response converts exactly if it is of the type of `V`, and fails
    /// with `WrongType` otherwise. An error that the sandbox reported is
    /// surfaced, an undecodable reply is a `Protocol` error, and a call cut
    /// short is a script error.
    pub fn eval_result<V: FromJs>(reply: Reply<EvalResponse>) -> (r: Result<V, Error>)
        ensures
            native_model(r) == eval_outcome(V::tag(), reply),
    {
        match reply.payload() {
            Ok(response) => V::from_js(Value::from_response(response)),
            Err(error) => Err(error),
        }
    }

    /// First step of a registration: puts `callable` under `name`, in place
    /// of what was there, and gives the request that announces the name to
    /// the sandbox.
    ///
    /// The function is in the table before the request exists, so the
    /// sandbox cannot call a name that is not there. Fails with
    /// `InvalidState`, and changes nothing, if the session is closed.
    pub fn register_callable(&mut self, name: &str, callable: Callable) -> (r: Result<
        RegisterRequest,
        Error,
    >)
        ensures
            old(self).registers(final(self), name@, callable, r),
    {
        if !self.open {
            return Err(Error::InvalidState);
        }
        self.callbacks.register(name.to_owned(), callable);
        Ok(RegisterRequest { name: name.to_owned() })
    }

    /// First step of a registration, for a native function: hides the types
    /// of `callback` and registers what is left, as
    /// [`Context::register_callable`] does.
    ///
    /// The function must accept every value of its parameter types, as a
    /// function without a precondition does.
    pub fn register<P, F: IntoCallback<P>>(&mut self, name: &str, callback: F) -> (r: Result<
        RegisterRequest,
        Error,
    >) where
        F::Returned: IntoCallbackResponse + Send + 'static,

        requires
            callback.callable(),
        ensures
            exists|callable: Callable|
                {
                    &&& callable.signature() == callback.signature()
                    &&& forall|args: Seq<ScriptValue>, result: ScriptValue|
                        callable.may_return(args, result) == callback.may_return(args, result)
                    &&& old(self).registers(final(self), name@, callable, r)
                },
    {
        self.register_callable(name, callback.into_callable())
    }

    /// Second step of a registration: whether the sandbox installed the
    /// name. Its acknowledgement is an empty payload; any other payload is
    /// a `Protocol` error.
    pub fn register_result(reply: Reply<Vec<u8>>) -> (r: Result<(), Error>)
        ensures
            match r {
                Ok(_) => register_outcome(reply) == Ok::<(), Failure>(()),
                Err(e) => register_outcome(reply) == Err::<(), Failure>(e@),
            },
    {
        match reply.payload() {
            Ok(payload) => {
                if payload.len() == 0 {
                    Ok(())
                } else {
                    Err(Error::Protocol("unexpected payload".to_owned()))
                }
            },
            Err(error) => Err(error),
        }
    }

    /// Serves a call that script made to a registered function.
    ///
    /// Fails with `InvalidState` if the session is closed, with `NotFound`
    /// if no function has the name, and with `ArityOrTypeMismatch` if the
    /// arguments do not match the function's signature. The session is the
    /// same after the call, whatever the function did.
    pub fn registered_callback(&self, request: CallRegisteredRequest) -> (r: Result<
        EvalResponse,
        Error,
    >)
        ensures
            self.serves(request.name@, param_values(request.params@), response_model(r)),
    {
        if !self.open {
            return Err(Error::InvalidState);
        }
        self.callbacks.invoke(request.name.as_str(), request.params)
    }

    /// What to answer the sandbox for a call to the function `name`:
    /// `outcome` is what [`Context::registered_callback`] returned, or
    /// `None` if the function panicked.
    ///
    /// A panic is answered as a `Dispatch` error, and every error as its
    /// text.
    pub fn callback_reply(name: &str, outcome: Option<Result<EvalResponse, Error>>) -> (r: Result<
        EvalResponse,
        protocol::Error,
    >)
        ensures
            answer_model(r) == callback_answer(
                name@,
                match outcome {
                    Some(served) => Some(response_model(served)),
                    None => None,
                },
            ),
    {
        match outcome {
            Some(Ok(response)) => Ok(response),
            Some(Err(error)) => Err(protocol::Error::Message(error.message())),
            None => Err(protocol::Error::Message(Error::Dispatch(name.to_owned()).message())),
        }
    }
}

/// The owner of the sandbox's sessions: the root session, which it holds
/// itself, and the sessions that it creates.
pub struct Runtime {
    root: Context,
}

/// What creating a session gives, where `opened` is what the sandbox made
/// of opening a scope for it: the handle of the scope, or the text of why
/// there is none. A session is created on the scope that was opened, and
/// no scope is an `Init` error.
pub open spec fn created(opened: Result<u32, String>, r: Result<Context, Error>) -> bool {
    match opened {
        Ok(resource) => r matches Ok(ctx) && ctx.resource() == resource && ctx.is_open()
            && ctx.callbacks() == Map::<Seq<char>, Callable>::empty(),
        Err(text) => r matches Err(e) && e@ == Failure::Init(text@),
    }
}

impl Runtime {
    /// The root session.
    pub closed spec fn spec_ctx(&self) -> &Context {
        &self.root
    }

    /// A runtime whose root session, on the scope 0 that the sandbox starts
    /// with, is open and has no functions.
    pub fn new() -> (runtime: Runtime)
        ensures
            runtime.ctx().resource() == 0,
            runtime.ctx().is_open(),
            runtime.ctx().callbacks() == Map::<Seq<char>, Callable>::empty(),
    {
        Runtime { root: Context::new(0) }
    }

    /// The root session.
    #[verifier::when_used_as_spec(spec_ctx)]
    pub fn ctx(&self) -> (ctx: &Context)
        ensures
            *ctx == self.ctx(),
    {
        &self.root
    }

    /// Creates a session of its own scope and its own functions, where
    /// `opened` is what the sandbox made of opening the scope: its handle,
    /// or the text of why there is none.
    ///
    /// Fails with `Init` if no scope was opened.
    pub fn create_ctx(&self, opened: Result<u32, String>) -> (r: Result<Context, Error>)
        ensures
            created(opened, r),
    {
        match opened {
            Ok(resource) => Ok(Context::new(resource)),
            Err(text) => Err(Error::Init(text)),
        }
    }

    /// First step of an evaluation in the root session; see
    /// [`Context::eval`].
    pub fn eval<V: FromJs>(&self, source: String) -> (r: Result<EvalRequest, Error>)
        ensures
            self.ctx().requests(V::tag(), source@, r),
    {
        self.root.eval::<V>(source)
    }

    /// First step of a registration in the root session; see
    /// [`Context::register_callable`].
    pub fn register_callable(&mut self, name: &str, callable: Callable) -> (r: Result<
        RegisterRequest,
        Error,
    >)
        ensures
            old(self).ctx().registers(final(self).ctx(), name@, callable, r),
    {
        self.root.register_callable(name, callable)
    }

    /// First step of a registration in the root session, for a native
    /// function; see [`Context::register`].
    pub fn register<P, F: IntoCallback<P>>(&mut self, name: &str, callback: F) -> (r: Result<
        RegisterRequest,
        Error,
    >) where
        F::Returned: IntoCallbackResponse + Send + 'static,

        requires
            callback.callable(),
        ensures
            exists|callable: Callable|
                {
                    &&& callable.signature() == callback.signature()
                    &&& forall|args: Seq<ScriptValue>, result: ScriptValue|
                        callable.may_return(args, result) == callback.may_return(args, result)
                    &&& old(self).ctx().registers(final(self).ctx(), name@, callable, r)
                },
    {
        self.root.register(name, callback)
    }

    /// Serves a call that script made in the root session; see
    /// [`Context::registered_callback`].
    pub fn registered_callback(&self, request: CallRegisteredRequest) -> (r: Result<
        EvalResponse,
        Error,
    >)
        ensures
            self.ctx().serves(request.name@, param_values(request.params@), response_model(r)),
    {
        self.root.registered_callback(request)
    }
}

} // verus!
