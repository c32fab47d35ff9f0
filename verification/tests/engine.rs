use rquickjs::function::{IntoJsFunc, ParamRequirement, Params};
use rquickjs::{CaughtError, Ctx, Exception, Function};
use sandkasse::callback::IntoCallback;
use sandkasse::error::{Error, ScriptError};
use sandkasse::guest::{CallbackHandler, Dispatcher, JsValue};
use sandkasse::protocol;
use sandkasse::reply::Reply;
use sandkasse::session::Context;
use sandkasse::value::{FromJs, IntoCallbackResponse};
use std::cell::RefCell;
use std::rc::Rc;
use std::sync::atomic::{AtomicU32, Ordering};
use std::sync::{Arc, Mutex};

/// What the dispatcher reads from the value that a source evaluated to.
fn read(value: &rquickjs::Value<'_>) -> JsValue {
    if value.is_undefined() {
        JsValue::Undefined
    } else if let Some(number) = value.as_int() {
        JsValue::Int(number)
    } else if let Some(flag) = value.as_bool() {
        JsValue::Bool(flag)
    } else if let Some(text) = value.as_string() {
        match text.to_string() {
            Ok(text) => JsValue::String(text),
            Err(_) => JsValue::Unsupported,
        }
    } else {
        JsValue::Unsupported
    }
}

/// The value of the engine for what a call returns.
fn write<'js>(ctx: &Ctx<'js>, value: JsValue) -> rquickjs::Result<rquickjs::Value<'js>> {
    match value {
        JsValue::Undefined | JsValue::Unsupported => {
            Ok(rquickjs::Value::new_undefined(ctx.clone()))
        }
        JsValue::Int(number) => Ok(rquickjs::Value::new_int(ctx.clone(), number)),
        JsValue::Bool(flag) => Ok(rquickjs::Value::new_bool(ctx.clone(), flag)),
        JsValue::String(text) => {
            rquickjs::String::from_str(ctx.clone(), &text).map(|text| text.into_value())
        }
    }
}

fn reply<T>(answer: Result<T, protocol::Error>) -> Reply<T> {
    match answer {
        Ok(payload) => Reply::Returned(payload),
        Err(error) => Reply::Failed(error),
    }
}

/// The function in the engine's global scope that forwards to the host.
struct Forwarder {
    handler: CallbackHandler,
    host: Rc<RefCell<Context>>,
}

impl<'js> IntoJsFunc<'js, Forwarder> for Forwarder {
    fn param_requirements() -> ParamRequirement {
        ParamRequirement::any()
    }

    fn call<'a>(&self, params: Params<'a, 'js>) -> rquickjs::Result<rquickjs::Value<'js>> {
        let mut accessor = params.access();
        let returned = self.handler.call(&mut accessor).and_then(|request| {
            let served = self.host.borrow().registered_callback(request);
            CallbackHandler::returned(reply(Context::callback_reply(
                &self.handler.name,
                Some(served),
            )))
        });
        match returned {
            Ok(value) => write(accessor.ctx(), value),
            Err(Error::Script(ScriptError::Raised(text))) => {
                Err(Exception::throw_message(accessor.ctx(), &text))
            }
            Err(error) => Err(Exception::throw_message(accessor.ctx(), &error.message())),
        }
    }
}

/// A sandbox without walls: the script engine runs in this process, and
/// what the two sides say to each other is handed over as it is.
struct Sandbox {
    engine: rquickjs::Context,
    host: Rc<RefCell<Context>>,
}

impl Sandbox {
    fn new() -> Sandbox {
        let runtime = rquickjs::Runtime::new().unwrap();
        let engine = rquickjs::Context::full(&runtime).unwrap();
        Sandbox { engine, host: Rc::new(RefCell::new(Context::new(1))) }
    }

    fn eval<V: FromJs>(&self, source: &str) -> Result<V, Error> {
        let request = self.host.borrow().eval::<V>(source.to_string())?;
        let answer = self.engine.with(|ctx| {
            let outcome = match ctx.eval::<rquickjs::Value, _>(request.source.as_str()) {
                Ok(value) => Ok(read(&value)),
                Err(error) => Err(CaughtError::from_error(&ctx, error).to_string()),
            };
            Dispatcher::eval(request.response_type, outcome)
        });
        Context::eval_result::<V>(reply(answer))
    }

    fn register<P, F: IntoCallback<P>>(&self, name: &str, callback: F) -> Result<(), Error>
    where
        F::Returned: IntoCallbackResponse + Send + 'static,
    {
        let request = self.host.borrow_mut().register(name, callback)?;
        let handler = Dispatcher::register(request);
        let forwarder = Forwarder { handler, host: self.host.clone() };
        let installed = self.engine.with(|ctx| -> rquickjs::Result<Vec<u8>> {
            let function = Function::new(ctx.clone(), forwarder)?.with_name(name)?;
            ctx.globals().set(name, function)?;
            Ok(Vec::new())
        });
        Context::register_result(reply(
            installed.map_err(|error| protocol::Error::Message(error.to_string())),
        ))
    }
}

fn raised(result: Result<i32, Error>) -> String {
    match result {
        Err(Error::Script(ScriptError::Raised(text))) => text,
        other => panic!("no script error: {:?}", other),
    }
}

#[test]
fn engine_evaluates_to_each_native_type() {
    let sandbox = Sandbox::new();
    assert_eq!(sandbox.eval::<i32>("40 + 2;"), Ok(42));
    assert_eq!(sandbox.eval::<bool>("1 < 2;"), Ok(true));
    assert_eq!(sandbox.eval::<String>("\"hi\";"), Ok("hi".to_string()));
    assert_eq!(sandbox.eval::<()>("let nothing;"), Ok(()));
    assert_eq!(sandbox.eval::<()>("(function () { return; })();"), Ok(()));
}

#[test]
fn engine_keeps_its_globals_between_evaluations() {
    let sandbox = Sandbox::new();
    assert_eq!(sandbox.eval::<()>("function yalla(v) { return v * 2; }"), Ok(()));
    assert_eq!(sandbox.eval::<i32>("yalla(45);"), Ok(90));
    assert_eq!(sandbox.eval::<bool>("let f = () => { return true; }; f();"), Ok(true));
    assert_eq!(sandbox.eval::<String>("\"string from js\";"), Ok("string from js".to_string()));
}

#[test]
fn engine_value_of_another_type_is_rejected() {
    let sandbox = Sandbox::new();
    assert_eq!(sandbox.eval::<()>("1;"), Err(Error::WrongType("expected void".to_string())));
    assert_eq!(sandbox.eval::<i32>("\"hi\";"), Err(Error::WrongType("expected int".to_string())));
    assert_eq!(sandbox.eval::<String>("42;"), Err(Error::WrongType("expected string".to_string())));
    assert_eq!(sandbox.eval::<bool>("0;"), Err(Error::WrongType("expected bool".to_string())));
    assert_eq!(sandbox.eval::<i32>("({});"), Err(Error::WrongType("expected int".to_string())));
    assert_eq!(sandbox.eval::<()>("null;"), Err(Error::WrongType("expected void".to_string())));
}

#[test]
fn engine_rejects_invalid_source() {
    let sandbox = Sandbox::new();
    assert!(!raised(sandbox.eval::<i32>("40 +;")).is_empty());
    assert!(matches!(
        sandbox.eval::<()>("function {"),
        Err(Error::Script(ScriptError::Raised(_)))
    ));
    assert!(matches!(
        sandbox.eval::<String>("\"open"),
        Err(Error::Script(ScriptError::Raised(_)))
    ));
    assert_eq!(sandbox.eval::<i32>("40 + 2;"), Ok(42));
}

#[test]
fn engine_reports_an_uncaught_exception() {
    let sandbox = Sandbox::new();
    assert!(raised(sandbox.eval::<i32>("throw new Error(\"no luck\");")).contains("no luck"));
    assert!(raised(sandbox.eval::<i32>("missing();")).contains("missing"));
}

#[test]
fn script_calls_a_function_without_parameters_once_per_call() {
    let sandbox = Sandbox::new();
    let calls = Arc::new(AtomicU32::new(0));
    let seen = calls.clone();
    assert_eq!(sandbox.register("x", move || {
            seen.fetch_add(1, Ordering::SeqCst);
        }), Ok(()));
    assert_eq!(calls.load(Ordering::SeqCst), 0);
    assert_eq!(sandbox.eval::<()>("x();"), Ok(()));
    assert_eq!(calls.load(Ordering::SeqCst), 1);
    assert_eq!(sandbox.eval::<()>("x(); x(); x();"), Ok(()));
    assert_eq!(calls.load(Ordering::SeqCst), 4);
    assert_eq!(sandbox.eval::<()>("x(undefined);"), Ok(()));
    assert_eq!(calls.load(Ordering::SeqCst), 5);
    assert!(raised(sandbox.eval::<i32>("x(1); 1;")).contains("too many arguments"));
    assert_eq!(calls.load(Ordering::SeqCst), 5);
}

#[test]
fn script_calls_add() {
    let sandbox = Sandbox::new();
    assert_eq!(sandbox.register("add", |i: i32, j: i32| i.wrapping_add(j)), Ok(()));
    assert_eq!(sandbox.eval::<i32>("add(42, 22);"), Ok(64));
    assert_eq!(sandbox.eval::<i32>("add(add(1, 2), add(3, 4));"), Ok(10));
    assert_eq!(sandbox.eval::<String>("typeof add;"), Ok("function".to_string()));
}

#[test]
fn script_sees_a_mismatch_as_an_exception() {
    let sandbox = Sandbox::new();
    assert_eq!(sandbox.register("add", |i: i32, j: i32| i.wrapping_add(j)), Ok(()));
    let text = raised(sandbox.eval::<i32>("add(\"42\", 22);"));
    assert!(text.contains("arity or type mismatch: expected int"));
    assert_eq!(
        sandbox.eval::<String>("try { add(42); \"returned\"; } catch (e) { e.message; }"),
        Ok("arity or type mismatch: missing argument".to_string())
    );
    assert_eq!(
        sandbox.eval::<String>("try { add(1, 2, 3); \"returned\"; } catch (e) { e.message; }"),
        Ok("arity or type mismatch: too many arguments".to_string())
    );
    assert_eq!(
        sandbox.eval::<String>("try { add({}, 2); \"returned\"; } catch (e) { e.message; }"),
        Ok("unrepresentable: unsupported argument type".to_string())
    );
    assert_eq!(sandbox.eval::<i32>("add(42, 22);"), Ok(64));
}

#[test]
fn script_passes_each_type_of_argument() {
    let sandbox = Sandbox::new();
    assert_eq!(sandbox.register("not", |flag: bool| !flag), Ok(()));
    assert_eq!(sandbox.register("shout", |text: String| text.to_uppercase()), Ok(()));
    assert_eq!(sandbox.register("repeat", |text: String, n: i32| text.repeat(n as usize)), Ok(()));
    assert_eq!(sandbox.eval::<bool>("not(false);"), Ok(true));
    assert_eq!(sandbox.eval::<String>("shout(\"yalla\");"), Ok("YALLA".to_string()));
    assert_eq!(sandbox.eval::<String>("repeat(\"ab\", 3);"), Ok("ababab".to_string()));
    assert_eq!(sandbox.eval::<i32>("shout(\"yalla\").length;"), Ok(5));
}

#[test]
fn script_sees_the_last_function_registered_under_a_name() {
    let sandbox = Sandbox::new();
    assert_eq!(sandbox.register("f", || 1), Ok(()));
    assert_eq!(sandbox.eval::<i32>("f();"), Ok(1));
    assert_eq!(sandbox.register("f", || 2), Ok(()));
    assert_eq!(sandbox.eval::<i32>("f();"), Ok(2));
    assert_eq!(sandbox.eval::<i32>("f() + f();"), Ok(4));
}

#[test]
fn closed_session_does_not_reach_the_engine() {
    let sandbox = Sandbox::new();
    assert_eq!(sandbox.register("f", || 1), Ok(()));
    assert_eq!(sandbox.host.borrow_mut().close(), Ok(1));
    assert_eq!(sandbox.eval::<i32>("f();"), Err(Error::InvalidState));
    assert_eq!(sandbox.register("g", || 2), Err(Error::InvalidState));
}

#[test]
fn script_arguments_arrive_as_they_were_passed() {
    let sandbox = Sandbox::new();
    let seen = Arc::new(Mutex::new(Vec::new()));
    let sink = seen.clone();
    assert_eq!(
        sandbox.register("note", move |text: String, n: i32| {
            sink.lock().unwrap().push((text, n));
        }),
        Ok(())
    );
    assert_eq!(sandbox.eval::<()>("note(\"a\", 1); note(\"\", -2147483647 - 1);"), Ok(()));
    assert_eq!(sandbox.eval::<()>("note(\"b\" + \"c\", 2 * 21, undefined);"), Ok(()));
    assert_eq!(
        *seen.lock().unwrap(),
        vec![("a".to_string(), 1), (String::new(), i32::MIN), ("bc".to_string(), 42)]
    );
}

#[test]
fn script_argument_that_does_not_cross_is_refused() {
    let sandbox = Sandbox::new();
    let calls = Arc::new(AtomicU32::new(0));
    let seen = calls.clone();
    assert_eq!(sandbox.register("take", move |_: i32| {
            seen.fetch_add(1, Ordering::SeqCst);
        }), Ok(()));
    for source in ["take({});", "take([1]);", "take(null);", "take(1.5);", "take(undefined, 1);"] {
        let text = raised(sandbox.eval::<i32>(source));
        assert!(text.contains("unrepresentable: unsupported argument type"));
    }
    assert!(raised(sandbox.eval::<i32>("take(true);")).contains("expected int"));
    assert!(raised(sandbox.eval::<i32>("take();")).contains("missing argument"));
    assert_eq!(calls.load(Ordering::SeqCst), 0);
    assert_eq!(sandbox.eval::<()>("take(7);"), Ok(()));
    assert_eq!(calls.load(Ordering::SeqCst), 1);
}

fn print() {}

#[test]
fn script_and_host_take_turns() {
    let sandbox = Sandbox::new();
    let heard = Arc::new(Mutex::new(Vec::new()));

    assert_eq!(sandbox.eval::<()>("function yalla(v) { return v * 2; }"), Ok(()));
    assert_eq!(sandbox.eval::<i32>("yalla(45);"), Ok(90));
    assert_eq!(sandbox.eval::<bool>("let f = () => { return true; }; f();"), Ok(true));
    assert_eq!(sandbox.eval::<String>("\"string from js\";"), Ok("string from js".to_string()));

    let sink = heard.clone();
    assert_eq!(sandbox.register("x", move || sink.lock().unwrap().push("x".to_string())), Ok(()));
    assert_eq!(sandbox.eval::<()>("x();"), Ok(()));

    let sink = heard.clone();
    assert_eq!(
        sandbox.register("y", move |i: i32| sink.lock().unwrap().push(format!("y {}", i))),
        Ok(())
    );
    assert_eq!(sandbox.eval::<()>("y(42);"), Ok(()));

    let sink = heard.clone();
    assert_eq!(
        sandbox.register("z", move |i: i32, j: i32| {
            sink.lock().unwrap().push(format!("z {} {}", i, j))
        }),
        Ok(())
    );
    assert_eq!(sandbox.eval::<()>("z(42, 22);"), Ok(()));

    assert_eq!(sandbox.register("add", |i: i32, j: i32| i.wrapping_add(j)), Ok(()));
    assert_eq!(sandbox.eval::<i32>("add(42, 22);"), Ok(64));

    assert_eq!(sandbox.register("print", print), Ok(()));
    assert_eq!(sandbox.eval::<()>("print();"), Ok(()));

    let sink = heard.clone();
    assert_eq!(
        sandbox.register("a", move |i: bool| sink.lock().unwrap().push(format!("a {}", i))),
        Ok(())
    );
    assert_eq!(sandbox.eval::<()>("a(false);"), Ok(()));

    let sink = heard.clone();
    assert_eq!(
        sandbox.register("s", move |i: String| sink.lock().unwrap().push(format!("s {}", i))),
        Ok(())
    );
    assert_eq!(sandbox.eval::<()>("s(\"yalla\");"), Ok(()));

    assert_eq!(*heard.lock().unwrap(), vec!["x", "y 42", "z 42 22", "a false", "s yalla"]);
}
