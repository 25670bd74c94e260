use crate::ast::{names_view, clone_names, Expr, SpecExpr};
use crate::eval::env::{Env, SpecEnv};
use crate::number::Num;
use std::rc::Rc;
use vstd::prelude::*;

verus! {

/// What a builtin function still waits for: how many arguments, and those it was given so far.
#[derive(Debug, PartialEq)]
pub struct BuiltinFuncArgs {
    pub length: usize,
    pub curried: Vec<Value>,
}

/// A value of the language.
///
/// The evaluator makes a record with its fields in dictionary order of their names, each name
/// once.
#[derive(Debug, PartialEq)]
pub enum Value {
    Number(Num),
    String(String),
    Boolean(bool),
    List(Vec<Value>),
    Record(Vec<(String, Value)>),
    Func { params: Vec<String>, body: Box<Expr>, env: Rc<Env> },
    BuiltinFunc { name: String, args: BuiltinFuncArgs },
}

/// The mathematical value of a [`Value`].
pub enum SpecValue {
    Number(Num),
    String(Seq<char>),
    Boolean(bool),
    List(Seq<SpecValue>),
    Record(Seq<(Seq<char>, SpecValue)>),
    Func { params: Seq<Seq<char>>, body: Box<SpecExpr>, env: Box<SpecEnv> },
    BuiltinFunc { name: Seq<char>, length: nat, curried: Seq<SpecValue> },
}

/// The values of a sequence of values, in order.
pub open spec fn values_view(values: Seq<Value>) -> Seq<SpecValue>
    decreases values,
{
    Seq::new(values.len(), |i: int| if 0 <= i < values.len() { values[i].view() } else { arbitrary() })
}

/// The values of a sequence of named values, in order.
pub open spec fn bindings_view(bindings: Seq<(String, Value)>) -> Seq<(Seq<char>, SpecValue)>
    decreases bindings,
{
    Seq::new(
        bindings.len(),
        |i: int| if 0 <= i < bindings.len() { (bindings[i].0@, bindings[i].1.view()) } else { arbitrary() },
    )
}

impl Value {
    pub open spec fn view(&self) -> SpecValue
        decreases self,
    {
        match self {
            Value::Number(n) => SpecValue::Number(*n),
            Value::String(s) => SpecValue::String(s@),
            Value::Boolean(b) => SpecValue::Boolean(*b),
            Value::List(items) => SpecValue::List(values_view(items@)),
            Value::Record(fields) => SpecValue::Record(bindings_view(fields@)),
            Value::Func { params, body, env } => SpecValue::Func {
                params: names_view(params@),
                body: Box::new((**body).view()),
                env: Box::new((**env).view()),
            },
            Value::BuiltinFunc { name, args } => SpecValue::BuiltinFunc {
                name: name@,
                length: args.length as nat,
                curried: values_view(args.curried@),
            },
        }
    }
}

/// `Rc::clone`: one more handle to the same environment.
#[verifier::external_body]
pub(crate) fn share(env: &Rc<Env>) -> (r: Rc<Env>)
    ensures
        r == *env,
{
    Rc::clone(env)
}

/// A copy of a list of values.
pub fn clone_values(values: &Vec<Value>) -> (r: Vec<Value>)
    ensures
        values_view(r@) == values_view(values@),
    decreases values,
{
    let mut out: Vec<Value> = Vec::new();
    let mut i: usize = 0;
    while i < values.len()
        invariant
            i <= values.len(),
            out.len() == i,
            forall|j: int| 0 <= j < i ==> out@[j]@ == values@[j]@,
        decreases values.len() - i,
    {
        let c = values[i].clone();
        out.push(c);
        i += 1;
    }
    assert(values_view(out@) =~= values_view(values@));
    out
}

/// A copy of a list of named values.
pub fn clone_bindings(bindings: &Vec<(String, Value)>) -> (r: Vec<(String, Value)>)
    ensures
        bindings_view(r@) == bindings_view(bindings@),
    decreases bindings,
{
    let mut out: Vec<(String, Value)> = Vec::new();
    let mut i: usize = 0;
    while i < bindings.len()
        invariant
            i <= bindings.len(),
            out.len() == i,
            forall|j: int| 0 <= j < i ==> out@[j].0@ == bindings@[j].0@ && out@[j].1@ == bindings@[j].1@,
        decreases bindings.len() - i,
    {
        let c = bindings[i].1.clone();
        out.push((bindings[i].0.clone(), c));
        i += 1;
    }
    assert(bindings_view(out@) =~= bindings_view(bindings@));
    out
}

impl Clone for Value {
    fn clone(&self) -> (r: Self)
        ensures
            r@ == self@,
        decreases self,
    {
        match self {
            Value::Number(n) => Value::Number(*n),
            Value::String(s) => Value::String(s.clone()),
            Value::Boolean(b) => Value::Boolean(*b),
            Value::List(items) => Value::List(clone_values(items)),
            Value::Record(fields) => Value::Record(clone_bindings(fields)),
            Value::Func { params, body, env } => Value::Func {
                params: clone_names(params),
                body: Box::new((**body).clone()),
                env: share(env),
            },
            Value::BuiltinFunc { name, args } => Value::BuiltinFunc {
                name: name.clone(),
                args: BuiltinFuncArgs { length: args.length, curried: clone_values(&args.curried) },
            },
        }
    }
}

} // verus!
