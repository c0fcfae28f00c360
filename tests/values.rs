use js_exec::{typeof_name, unquote, PyJSPromiseState, ValueType};

#[test]
fn typeof_names() {
    assert_eq!(typeof_name(ValueType::Undefined), "undefined");
    assert_eq!(typeof_name(ValueType::Null), "object");
    assert_eq!(typeof_name(ValueType::Boolean), "boolean");
    assert_eq!(typeof_name(ValueType::Number), "number");
    assert_eq!(typeof_name(ValueType::BigInt), "bigint");
    assert_eq!(typeof_name(ValueType::Text), "string");
    assert_eq!(typeof_name(ValueType::Symbol), "symbol");
    assert_eq!(typeof_name(ValueType::Function), "function");
    assert_eq!(typeof_name(ValueType::Object), "object");
}

#[test]
fn unquote_strips_one_pair() {
    assert_eq!(unquote("\"abc\""), "abc");
    assert_eq!(unquote("\"\""), "");
    assert_eq!(unquote("\"\"x\"\""), "\"x\"");
    assert_eq!(unquote("\"é\""), "é");
}

#[test]
fn unquote_keeps_other_text() {
    assert_eq!(unquote("abc"), "abc");
    assert_eq!(unquote("\""), "\"");
    assert_eq!(unquote("\"abc"), "\"abc");
    assert_eq!(unquote("12"), "12");
    assert_eq!(unquote(""), "");
}

#[test]
fn promise_states_differ() {
    assert_ne!(PyJSPromiseState::Pending, PyJSPromiseState::Fulfilled);
    assert_ne!(PyJSPromiseState::Fulfilled, PyJSPromiseState::Rejected);
    assert_eq!(PyJSPromiseState::Rejected, PyJSPromiseState::Rejected);
}
