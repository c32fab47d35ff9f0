//! Typed call marshaling between a host program and sandboxed script.
//!
//! A host evaluates script in a sandbox and gets typed results back, and it
//! registers native functions that the script may call while it runs. The
//! crate holds both ends of that boundary: the host side, which asks for
//! evaluations and serves the functions it has registered, and the guest
//! side, which answers evaluations and forwards script calls to the host.
//!
//! Neither end touches the sandbox itself, and the script engine is run
//! elsewhere: every operation is split into what is decided here and what
//! the embedding program carries across the boundary.
//!
//! - [`protocol`] has the values and envelopes that cross the boundary, and
//!   [`reply`] what comes back from a call across it.
//! - [`value`] and [`params`] convert between native types and those values.
//! - [`callback`] hides the types of a native function, and [`registry`]
//!   keeps such functions by name.
//! - [`session`] is the host side, [`guest`] the guest side, and [`engine`]
//!   what the guest side reads from the script engine.
//! - [`exchange`] states what the two sides make of one exchange together.

pub mod callback;
pub mod engine;
pub mod error;
pub mod exchange;
pub mod guest;
pub mod params;
pub mod protocol;
pub mod registry;
pub mod reply;
pub mod session;
pub mod value;

pub use callback::{Callable, IntoCallback};
pub use error::{Error, ScriptError};
pub use guest::{CallbackHandler, Dispatcher, JsValue};
pub use params::{FromParams, Params};
pub use protocol::{
    CallRegisteredParam, CallRegisteredRequest, EvalRequest, EvalResponse, EvalResponseType,
    RegisterRequest,
};
pub use registry::Registry;
pub use reply::Reply;
pub use session::{Context, Runtime};
pub use value::{FromJs, IntoCallbackResponse, Value};
