use crate::ast::same::{same_expr, same_names};
use crate::eval::env::{Env, SpecEnv};
use crate::eval::value::{bindings_view, values_view, SpecValue, Value};
use vstd::prelude::*;

verus! {

/// Whether two values are the same: numbers as numbers are equal (the two zeros are, and what
/// is not a number is the same as nothing); texts and booleans when they are identical; lists
/// item by item; records field by field; closures when they have the same parameters and the
/// same body and were made in the same frame; builtin functions when they are the same
/// function with the same arguments given. Values of different kinds differ.
pub open spec fn same(a: SpecValue, b: SpecValue) -> bool
    decreases a,
{
    match (a, b) {
        (SpecValue::Number(x), SpecValue::Number(y)) => x.spec_equals(y),
        (SpecValue::String(x), SpecValue::String(y)) => x == y,
        (SpecValue::Boolean(x), SpecValue::Boolean(y)) => x == y,
        (SpecValue::List(x), SpecValue::List(y)) => x.len() == y.len() && forall|i: int|
            0 <= i < x.len() ==> same(#[trigger] x[i], y[i]),
        (SpecValue::Record(x), SpecValue::Record(y)) => x.len() == y.len() && forall|i: int|
            0 <= i < x.len() ==> (#[trigger] x[i]).0 == y[i].0 && same(x[i].1, y[i].1),
        (
            SpecValue::Func { params: n1, body: b1, env: e1 },
            SpecValue::Func { params: n2, body: b2, env: e2 },
        ) => n1 == n2 && b1 == b2 && same_env(*e1, *e2),
        (
            SpecValue::BuiltinFunc { name: n1, length: l1, curried: c1 },
            SpecValue::BuiltinFunc { name: n2, length: l2, curried: c2 },
        ) => n1 == n2 && l1 == l2 && c1.len() == c2.len() && forall|i: int|
            0 <= i < c1.len() ==> same(#[trigger] c1[i], c2[i]),
        _ => false,
    }
}

/// Whether two frames are the same: they bind the same names to the same values, and lie
/// in the same frame.
pub open spec fn same_env(a: SpecEnv, b: SpecEnv) -> bool
    decreases a,
{
    &&& a.variables.len() == b.variables.len()
    &&& forall|i: int|
        0 <= i < a.variables.len() ==> (#[trigger] a.variables[i]).0 == b.variables[i].0 && same(
            a.variables[i].1,
            b.variables[i].1,
        )
    &&& match (a.parent, b.parent) {
        (Some(p), Some(q)) => same_env(*p, *q),
        (None, None) => true,
        _ => false,
    }
}

/// `==` on two values: they are to be of one kind.
pub open spec fn spec_equal(a: SpecValue, b: SpecValue) -> Option<bool> {
    match (a, b) {
        (SpecValue::Number(_), SpecValue::Number(_)) => Some(same(a, b)),
        (SpecValue::String(_), SpecValue::String(_)) => Some(same(a, b)),
        (SpecValue::Boolean(_), SpecValue::Boolean(_)) => Some(same(a, b)),
        (SpecValue::List(_), SpecValue::List(_)) => Some(same(a, b)),
        (SpecValue::Record(_), SpecValue::Record(_)) => Some(same(a, b)),
        (SpecValue::Func { .. }, SpecValue::Func { .. }) => Some(same(a, b)),
        (SpecValue::BuiltinFunc { .. }, SpecValue::BuiltinFunc { .. }) => Some(same(a, b)),
        _ => None,
    }
}

/// Whether two lists hold the same values in the same order.
fn same_values(x: &Vec<Value>, y: &Vec<Value>) -> (r: bool)
    ensures
        r == (x.len() == y.len() && forall|i: int|
            0 <= i < x.len() ==> same(#[trigger] values_view(x@)[i], values_view(y@)[i])),
    decreases x,
{
    if x.len() != y.len() {
        return false;
    }
    let mut i: usize = 0;
    while i < x.len()
        invariant
            x.len() == y.len(),
            i <= x.len(),
            forall|j: int| 0 <= j < i ==> same(#[trigger] values_view(x@)[j], values_view(y@)[j]),
        decreases x.len() - i,
    {
        assert(values_view(x@)[i as int] == x@[i as int]@);
        assert(values_view(y@)[i as int] == y@[i as int]@);
        if !is_same(&x[i], &y[i]) {
            assert(!same(values_view(x@)[i as int], values_view(y@)[i as int]));
            return false;
        }
        i += 1;
    }
    true
}

/// Whether two lists bind the same names to the same values in the same order.
fn same_bindings(x: &Vec<(String, Value)>, y: &Vec<(String, Value)>) -> (r: bool)
    ensures
        r == (x.len() == y.len() && forall|i: int|
            0 <= i < x.len() ==> (#[trigger] bindings_view(x@)[i]).0 == bindings_view(y@)[i].0 && same(
                bindings_view(x@)[i].1,
                bindings_view(y@)[i].1,
            )),
    decreases x,
{
    if x.len() != y.len() {
        return false;
    }
    let mut i: usize = 0;
    while i < x.len()
        invariant
            x.len() == y.len(),
            i <= x.len(),
            forall|j: int|
                0 <= j < i ==> (#[trigger] bindings_view(x@)[j]).0 == bindings_view(y@)[j].0 && same(
                    bindings_view(x@)[j].1,
                    bindings_view(y@)[j].1,
                ),
        decreases x.len() - i,
    {
        assert(bindings_view(x@)[i as int] == (x@[i as int].0@, x@[i as int].1@));
        assert(bindings_view(y@)[i as int] == (y@[i as int].0@, y@[i as int].1@));
        if !(x[i].0 == y[i].0) || !is_same(&x[i].1, &y[i].1) {
            assert(!(bindings_view(x@)[i as int].0 == bindings_view(y@)[i as int].0 && same(
                bindings_view(x@)[i as int].1,
                bindings_view(y@)[i as int].1,
            )));
            return false;
        }
        i += 1;
    }
    true
}

/// Whether two frames are the same.
pub fn is_same_env(a: &Env, b: &Env) -> (r: bool)
    ensures
        r == same_env(a@, b@),
    decreases a,
{
    assert(a@.variables == bindings_view(a.variables@));
    assert(b@.variables == bindings_view(b.variables@));
    assert(a@.variables.len() == a.variables.len());
    assert(b@.variables.len() == b.variables.len());
    assert(a@.parent == crate::eval::env::parent_view(a.parent));
    assert(b@.parent == crate::eval::env::parent_view(b.parent));
    if !same_bindings(&a.variables, &b.variables) {
        assert(!same_env(a@, b@));
        return false;
    }
    assert(a@.variables.len() == b@.variables.len() && forall|i: int|
        0 <= i < a@.variables.len() ==> (#[trigger] a@.variables[i]).0 == b@.variables[i].0 && same(
            a@.variables[i].1,
            b@.variables[i].1,
        ));
    match (&a.parent, &b.parent) {
        (Some(p), Some(q)) => {
            assert(a@.parent == Some(Box::new((**p)@)));
            assert(b@.parent == Some(Box::new((**q)@)));
            is_same_env(p, q)
        },
        (None, None) => {
            assert(a@.parent is None && b@.parent is None);
            true
        },
        (Some(_), None) => {
            assert(a@.parent is Some && b@.parent is None);
            false
        },
        (None, Some(_)) => {
            assert(a@.parent is None && b@.parent is Some);
            false
        },
    }
}

/// Whether two values are the same.
pub fn is_same(a: &Value, b: &Value) -> (r: bool)
    ensures
        r == same(a@, b@),
    decreases a,
{
    match (a, b) {
        (Value::Number(x), Value::Number(y)) => x.equals(*y),
        (Value::String(x), Value::String(y)) => *x == *y,
        (Value::Boolean(x), Value::Boolean(y)) => *x == *y,
        (Value::List(x), Value::List(y)) => {
            assert(values_view(x@).len() == x.len() && values_view(y@).len() == y.len());
            same_values(x, y)
        },
        (Value::Record(x), Value::Record(y)) => {
            assert(bindings_view(x@).len() == x.len() && bindings_view(y@).len() == y.len());
            same_bindings(x, y)
        },
        (Value::Func { params: n1, body: b1, env: e1 }, Value::Func { params: n2, body: b2, env: e2 }) => {
            same_names(n1, n2) && same_expr(b1, b2) && is_same_env(e1, e2)
        },
        (Value::BuiltinFunc { name: n1, args: a1 }, Value::BuiltinFunc { name: n2, args: a2 }) => {
            assert(values_view(a1.curried@).len() == a1.curried.len());
            assert(values_view(a2.curried@).len() == a2.curried.len());
            *n1 == *n2 && a1.length == a2.length && same_values(&a1.curried, &a2.curried)
        },
        _ => false,
    }
}

/// `==` on two values: nothing where they are of different kinds.
pub fn equal(a: &Value, b: &Value) -> (r: Option<bool>)
    ensures
        r == spec_equal(a@, b@),
{
    match (a, b) {
        (Value::Number(_), Value::Number(_)) => Some(is_same(a, b)),
        (Value::String(_), Value::String(_)) => Some(is_same(a, b)),
        (Value::Boolean(_), Value::Boolean(_)) => Some(is_same(a, b)),
        (Value::List(_), Value::List(_)) => Some(is_same(a, b)),
        (Value::Record(_), Value::Record(_)) => Some(is_same(a, b)),
        (Value::Func { .. }, Value::Func { .. }) => Some(is_same(a, b)),
        (Value::BuiltinFunc { .. }, Value::BuiltinFunc { .. }) => Some(is_same(a, b)),
        _ => None,
    }
}

} // verus!
