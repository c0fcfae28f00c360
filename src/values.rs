//! Plain facts about engine values that the host reports: the state of a
//! promise, the `typeof` name of a value, and key text without its quotes.

use vstd::prelude::*;

verus! {

/// The state of a promise.
#[derive(Clone, Copy, Debug, PartialEq, Eq, Hash, Structural)]
pub enum PyJSPromiseState {
    Pending,
    Fulfilled,
    Rejected,
}

/// The type of an engine value, as the engine classifies it; a function is an
/// object whose built-in class is `Function`.
#[derive(Clone, Copy, Debug, PartialEq, Eq, Hash, Structural)]
pub enum ValueType {
    Undefined,
    Null,
    Boolean,
    Number,
    BigInt,
    Text,
    Symbol,
    Function,
    Object,
}

/// The name the `typeof` operator gives a value of type `t`.
pub open spec fn typeof_of(t: ValueType) -> Seq<char> {
    match t {
        ValueType::Undefined => "undefined"@,
        ValueType::Null => "object"@,
        ValueType::Boolean => "boolean"@,
        ValueType::Number => "number"@,
        ValueType::BigInt => "bigint"@,
        ValueType::Text => "string"@,
        ValueType::Symbol => "symbol"@,
        ValueType::Function => "function"@,
        ValueType::Object => "object"@,
    }
}

/// The name the `typeof` operator gives a value of type `t`; `null` is an
/// object.
pub fn typeof_name(t: ValueType) -> (r: String)
    ensures
        r@ == typeof_of(t),
{
    match t {
        ValueType::Undefined => "undefined".to_owned(),
        ValueType::Null => "object".to_owned(),
        ValueType::Boolean => "boolean".to_owned(),
        ValueType::Number => "number".to_owned(),
        ValueType::BigInt => "bigint".to_owned(),
        ValueType::Text => "string".to_owned(),
        ValueType::Symbol => "symbol".to_owned(),
        ValueType::Function => "function".to_owned(),
        ValueType::Object => "object".to_owned(),
    }
}

/// `s` without one pair of surrounding double quotes, if it has them.
pub open spec fn unquoted(s: Seq<char>) -> Seq<char> {
    if s.len() >= 2 && s[0] == '"' && s[s.len() - 1] == '"' {
        s.subrange(1, s.len() - 1)
    } else {
        s
    }
}

/// Removes one pair of surrounding double quotes from the printed form of a
/// key; text without them is kept as it is.
pub fn unquote(s: &str) -> (r: String)
    ensures
        r@ == unquoted(s@),
{
    let n = s.unicode_len();
    if n >= 2 && s.get_char(0) == '"' && s.get_char(n - 1) == '"' {
        s.substring_char(1, n - 1).to_owned()
    } else {
        s.to_owned()
    }
}

} // verus!
