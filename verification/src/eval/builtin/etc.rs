use crate::eval::value::{values_view, SpecValue, Value};
use crate::number::{spec_from_index, Num};
use vstd::prelude::*;

verus! {

/// The value of what a builtin function returns: a value, or a message.
pub open spec fn result_view(r: Result<Value, String>) -> Result<SpecValue, Seq<char>> {
    match r {
        Ok(v) => Ok(v@),
        Err(e) => Err(e@),
    }
}

/// `len`: the number of items of a list, or of characters of a text.
pub open spec fn spec_len(args: Seq<SpecValue>) -> Result<SpecValue, Seq<char>> {
    if args.len() == 1 && args[0] is List {
        Ok(SpecValue::Number(spec_from_index(args[0]->List_0.len())))
    } else if args.len() == 1 && args[0] is String {
        Ok(SpecValue::Number(spec_from_index(args[0]->String_0.len())))
    } else {
        Err("len: expected a list or string"@)
    }
}

/// `empty`: whether a list has no item, or a text no character.
pub open spec fn spec_empty(args: Seq<SpecValue>) -> Result<SpecValue, Seq<char>> {
    if args.len() == 1 && args[0] is List {
        Ok(SpecValue::Boolean(args[0]->List_0.len() == 0))
    } else if args.len() == 1 && args[0] is String {
        Ok(SpecValue::Boolean(args[0]->String_0.len() == 0))
    } else {
        Err("empty: expected a list or string"@)
    }
}

/// `not_empty`: whether a list has an item, or a text a character.
pub open spec fn spec_not_empty(args: Seq<SpecValue>) -> Result<SpecValue, Seq<char>> {
    if args.len() == 1 && args[0] is List {
        Ok(SpecValue::Boolean(args[0]->List_0.len() != 0))
    } else if args.len() == 1 && args[0] is String {
        Ok(SpecValue::Boolean(args[0]->String_0.len() != 0))
    } else {
        Err("notEmpty: expected a list or string"@)
    }
}

/// How many items a list has, or characters a text; nothing for another value.
pub fn size_of(value: &Value) -> (r: Option<usize>)
    ensures
        value@ is List ==> r == Some(value@->List_0.len() as usize) && value@->List_0.len()
            <= usize::MAX,
        value@ is String ==> r == Some(value@->String_0.len() as usize) && value@->String_0.len()
            <= usize::MAX,
        !(value@ is List) && !(value@ is String) ==> r is None,
{
    match value {
        Value::List(l) => Some(l.len()),
        Value::String(s) => Some(s.as_str().unicode_len()),
        _ => None,
    }
}

/// `len`: the number of items of a list, or of characters of a text.
pub fn len(args: Vec<Value>) -> (r: Result<Value, String>)
    ensures
        result_view(r) == spec_len(values_view(args@)),
{
    if args.len() == 1 {
        if let Some(n) = size_of(&args[0]) {
            return Ok(Value::Number(Num::from_index(n)));
        }
    }
    Err(String::from_str("len: expected a list or string"))
}

/// `empty`: whether a list has no item, or a text no character.
pub fn empty(args: Vec<Value>) -> (r: Result<Value, String>)
    ensures
        result_view(r) == spec_empty(values_view(args@)),
{
    if args.len() == 1 {
        if let Some(n) = size_of(&args[0]) {
            return Ok(Value::Boolean(n == 0));
        }
    }
    Err(String::from_str("empty: expected a list or string"))
}

/// `not_empty`: whether a list has an item, or a text a character.
pub fn not_empty(args: Vec<Value>) -> (r: Result<Value, String>)
    ensures
        result_view(r) == spec_not_empty(values_view(args@)),
{
    if args.len() == 1 {
        if let Some(n) = size_of(&args[0]) {
            return Ok(Value::Boolean(n != 0));
        }
    }
    Err(String::from_str("notEmpty: expected a list or string"))
}

} // verus!
