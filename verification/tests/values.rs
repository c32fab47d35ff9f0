use sandkasse::error::Error;
use sandkasse::guest::JsValue;
use sandkasse::protocol;
use sandkasse::protocol::{EvalResponse, EvalResponseType};
use sandkasse::value::{FromJs, IntoCallbackResponse, Value};

#[test]
fn response_type_of_each_native_type() {
    assert_eq!(<() as FromJs>::response_type(), EvalResponseType::Void);
    assert_eq!(<i32 as FromJs>::response_type(), EvalResponseType::Int);
    assert_eq!(<bool as FromJs>::response_type(), EvalResponseType::Bool);
    assert_eq!(<String as FromJs>::response_type(), EvalResponseType::String);
}

#[test]
fn response_type_of_each_response() {
    assert_eq!(EvalResponse::Void.response_type(), EvalResponseType::Void);
    assert_eq!(EvalResponse::Int(-7).response_type(), EvalResponseType::Int);
    assert_eq!(EvalResponse::Bool(false).response_type(), EvalResponseType::Bool);
    assert_eq!(EvalResponse::String("s".to_string()).response_type(), EvalResponseType::String);
}

#[test]
fn from_js_takes_the_matching_variant() {
    assert_eq!(<() as FromJs>::from_js(Value::Void), Ok(()));
    assert_eq!(<i32 as FromJs>::from_js(Value::Int(42)), Ok(42));
    assert_eq!(<i32 as FromJs>::from_js(Value::Int(i32::MIN)), Ok(i32::MIN));
    assert_eq!(<bool as FromJs>::from_js(Value::Bool(true)), Ok(true));
    assert_eq!(<String as FromJs>::from_js(Value::Str("hi".to_string())), Ok("hi".to_string()));
    assert_eq!(<String as FromJs>::from_js(Value::Str(String::new())), Ok(String::new()));
}

#[test]
fn from_js_rejects_every_other_variant() {
    let void = Err(Error::WrongType("expected void".to_string()));
    assert_eq!(<() as FromJs>::from_js(Value::Int(1)), void);
    assert_eq!(<() as FromJs>::from_js(Value::Bool(false)), void);
    assert_eq!(<() as FromJs>::from_js(Value::Str(String::new())), void);
    let int = Err(Error::WrongType("expected int".to_string()));
    assert_eq!(<i32 as FromJs>::from_js(Value::Void), int);
    assert_eq!(<i32 as FromJs>::from_js(Value::Bool(true)), int);
    assert_eq!(<i32 as FromJs>::from_js(Value::Str("1".to_string())), int);
    let boolean = Err(Error::WrongType("expected bool".to_string()));
    assert_eq!(<bool as FromJs>::from_js(Value::Void), boolean);
    assert_eq!(<bool as FromJs>::from_js(Value::Int(1)), boolean);
    assert_eq!(<bool as FromJs>::from_js(Value::Str("true".to_string())), boolean);
    let string = Err(Error::WrongType("expected string".to_string()));
    assert_eq!(<String as FromJs>::from_js(Value::Void), string);
    assert_eq!(<String as FromJs>::from_js(Value::Int(1)), string);
    assert_eq!(<String as FromJs>::from_js(Value::Bool(true)), string);
}

#[test]
fn into_response_of_each_native_type() {
    assert_eq!(().into_response(), EvalResponse::Void);
    assert_eq!(64.into_response(), EvalResponse::Int(64));
    assert_eq!(true.into_response(), EvalResponse::Bool(true));
    assert_eq!("yalla".to_string().into_response(), EvalResponse::String("yalla".to_string()));
}

#[test]
fn every_variant_survives_the_way_there_and_back() {
    let values = vec![
        Value::Void,
        Value::Int(0),
        Value::Int(i32::MAX),
        Value::Int(i32::MIN),
        Value::Bool(true),
        Value::Bool(false),
        Value::Str(String::new()),
        Value::Str("string from js \u{1F600}".to_string()),
    ];
    for value in values {
        let response = value.clone().into_response();
        assert_eq!(Value::from_response(response.clone()), value);
        let in_engine = JsValue::from_response(response.clone());
        assert_eq!(in_engine.into_response(response.response_type()), Ok(response));
    }
}

#[test]
fn native_values_survive_the_way_there_and_back() {
    assert_eq!(<i32 as FromJs>::from_js(Value::from_response((-5).into_response())), Ok(-5));
    assert_eq!(<bool as FromJs>::from_js(Value::from_response(false.into_response())), Ok(false));
    assert_eq!(<() as FromJs>::from_js(Value::from_response(().into_response())), Ok(()));
    let text = "a\"b".to_string();
    assert_eq!(<String as FromJs>::from_js(Value::from_response(text.into_response())), Ok(text));
}

#[test]
fn engine_value_is_not_coerced() {
    let wrong = |text: &str| Err(protocol::Error::WrongType(text.to_string()));
    assert_eq!(JsValue::Int(1).into_response(EvalResponseType::Void), wrong("expected void"));
    assert_eq!(JsValue::Int(1).into_response(EvalResponseType::Bool), wrong("expected bool"));
    assert_eq!(JsValue::Int(1).into_response(EvalResponseType::String), wrong("expected string"));
    assert_eq!(JsValue::Bool(true).into_response(EvalResponseType::Int), wrong("expected int"));
    assert_eq!(
        JsValue::String("1".to_string()).into_response(EvalResponseType::Int),
        wrong("expected int")
    );
    assert_eq!(JsValue::Undefined.into_response(EvalResponseType::Int), wrong("expected int"));
    assert_eq!(JsValue::Unsupported.into_response(EvalResponseType::Void), wrong("expected void"));
    assert_eq!(JsValue::Unsupported.into_response(EvalResponseType::Int), wrong("expected int"));
    assert_eq!(JsValue::Undefined.into_response(EvalResponseType::Void), Ok(EvalResponse::Void));
}

#[test]
fn error_message_names_the_kind() {
    assert_eq!(Error::Init("no engine".to_string()).message(), "init: no engine");
    assert_eq!(Error::Protocol("bad map".to_string()).message(), "protocol: bad map");
    assert_eq!(
        Error::Script(sandkasse::error::ScriptError::Raised("x is not defined".to_string()))
            .message(),
        "script: x is not defined"
    );
    assert_eq!(Error::Script(sandkasse::error::ScriptError::Aborted).message(), "script: aborted");
    assert_eq!(Error::WrongType("expected int".to_string()).message(), "wrong type: expected int");
    assert_eq!(
        Error::ArityOrTypeMismatch("missing argument".to_string()).message(),
        "arity or type mismatch: missing argument"
    );
    assert_eq!(Error::NotFound("add".to_string()).message(), "not found: add");
    assert_eq!(Error::InvalidState.message(), "invalid state");
    assert_eq!(
        Error::Unrepresentable("unsupported argument type".to_string()).message(),
        "unrepresentable: unsupported argument type"
    );
    assert_eq!(Error::Dispatch("add".to_string()).message(), "dispatch: add");
}
