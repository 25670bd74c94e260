use crate::ast::{CompOp, FactorOp, LogicOp, TermOp, UnaryOp};
use crate::eval::builtin::list::clone_range;
use crate::eval::env::{bindings_get, get_binding};
use crate::eval::error::{EvalError, SpecEvalError};
use crate::eval::same::{equal, spec_equal};
use crate::eval::value::{values_view, SpecValue, Value};
use crate::number::{spec_from_index, Num};
use crate::text::{chars_of, string_of};
use vstd::prelude::*;

verus! {

/// An operation on two numbers that needs rounding, and is asked of the host.
#[derive(Debug, Clone, Copy, PartialEq, Eq, Structural)]
pub enum ArithOp {
    Add,
    Sub,
    Mul,
    Div,
    Rem,
}

/// An operator with two operands, both of which are evaluated, the left one first.
#[derive(Debug, Clone, Copy, PartialEq, Eq, Structural)]
pub enum BinaryOp {
    Logic(LogicOp),
    Comp(CompOp),
    Range,
    Term(TermOp),
    Factor(FactorOp),
    Index,
    Pipe,
}

/// What an operator makes of its operands.
#[derive(Debug, PartialEq)]
pub enum Computed {
    /// The value of the operation.
    Value(Value),
    /// The value is that of an operation on numbers that the host is to carry out.
    Arith { op: ArithOp, left: Num, right: Num },
    /// The value is that of `func` applied to `args`.
    Apply { func: Value, args: Vec<Value> },
    /// The operation fails.
    Error(EvalError),
}

/// The mathematical value of a [`Computed`].
pub enum SpecComputed {
    Value(SpecValue),
    Arith { op: ArithOp, left: Num, right: Num },
    Apply { func: SpecValue, args: Seq<SpecValue> },
    Error(SpecEvalError),
}

impl Computed {
    pub open spec fn view(&self) -> SpecComputed {
        match self {
            Computed::Value(v) => SpecComputed::Value(v@),
            Computed::Arith { op, left, right } => SpecComputed::Arith {
                op: *op,
                left: *left,
                right: *right,
            },
            Computed::Apply { func, args } => SpecComputed::Apply {
                func: func@,
                args: values_view(args@),
            },
            Computed::Error(e) => SpecComputed::Error(e@),
        }
    }
}

/// The value of what an operation returns: a value, or a failure.
pub open spec fn outcome_view(r: Result<Value, EvalError>) -> Result<SpecValue, SpecEvalError> {
    match r {
        Ok(v) => Ok(v@),
        Err(e) => Err(e@),
    }
}

/// A failure for an operand of the wrong kind.
pub open spec fn mismatch(context: Seq<char>) -> SpecComputed {
    SpecComputed::Error(SpecEvalError::TypeMismatch(context))
}

/// `and` and `or`, on booleans only. Both operands were evaluated.
pub open spec fn spec_logic(op: LogicOp, left: SpecValue, right: SpecValue) -> SpecComputed {
    match (op, left, right) {
        (LogicOp::And, SpecValue::Boolean(l), SpecValue::Boolean(r)) => SpecComputed::Value(
            SpecValue::Boolean(l && r),
        ),
        (LogicOp::Or, SpecValue::Boolean(l), SpecValue::Boolean(r)) => SpecComputed::Value(
            SpecValue::Boolean(l || r),
        ),
        (LogicOp::And, _, _) => mismatch("Logical AND requires boolean operands"@),
        (LogicOp::Or, _, _) => mismatch("Logical OR requires boolean operands"@),
    }
}

/// The comparisons: `==` and `!=` on values of one kind, the others on numbers only.
pub open spec fn spec_comp(op: CompOp, left: SpecValue, right: SpecValue) -> SpecComputed {
    match op {
        CompOp::Equal => match spec_equal(left, right) {
            Some(b) => SpecComputed::Value(SpecValue::Boolean(b)),
            None => mismatch("Equality comparison requires same type"@),
        },
        CompOp::NotEqual => match spec_equal(left, right) {
            Some(b) => SpecComputed::Value(SpecValue::Boolean(!b)),
            None => mismatch("Inequality comparison requires same type"@),
        },
        CompOp::LessThan => match (left, right) {
            (SpecValue::Number(l), SpecValue::Number(r)) => SpecComputed::Value(
                SpecValue::Boolean(l.spec_less(r)),
            ),
            _ => mismatch("Less than comparison requires number operands"@),
        },
        CompOp::LessThanOrEqual => match (left, right) {
            (SpecValue::Number(l), SpecValue::Number(r)) => SpecComputed::Value(
                SpecValue::Boolean(l.spec_at_most(r)),
            ),
            _ => mismatch("Less than or equal comparison requires number operands"@),
        },
        CompOp::GreaterThan => match (left, right) {
            (SpecValue::Number(l), SpecValue::Number(r)) => SpecComputed::Value(
                SpecValue::Boolean(r.spec_less(l)),
            ),
            _ => mismatch("Greater than comparison requires number operands"@),
        },
        CompOp::GreaterThanOrEqual => match (left, right) {
            (SpecValue::Number(l), SpecValue::Number(r)) => SpecComputed::Value(
                SpecValue::Boolean(r.spec_at_most(l)),
            ),
            _ => mismatch("Greater than or equal comparison requires number operands"@),
        },
    }
}

/// The whole numbers from `first` up to and including `last`, as values.
pub open spec fn count_up(first: usize, last: usize) -> Seq<SpecValue> {
    Seq::new(
        if last >= first {
            (last - first + 1) as nat
        } else {
            0nat
        },
        |i: int| SpecValue::Number(spec_from_index((first + i) as nat)),
    )
}

/// `start..end`: the list of the whole numbers from the integer part of `start` up to and
/// including that of `end`. `start` may not be greater than `end`, and `end` is to be below
/// the greatest index.
pub open spec fn spec_range(left: SpecValue, right: SpecValue) -> SpecComputed {
    match (left, right) {
        (SpecValue::Number(s), SpecValue::Number(e)) => if !s.spec_at_most(e) {
            mismatch("Start of range must be less than or equal to end"@)
        } else if e.spec_to_index() == usize::MAX {
            SpecComputed::Error(SpecEvalError::IndexOutOfBounds(usize::MAX))
        } else {
            SpecComputed::Value(SpecValue::List(count_up(s.spec_to_index(), e.spec_to_index())))
        },
        _ => mismatch("Range requires number operands"@),
    }
}

/// `+` and `-`: numbers are added and subtracted by the host; `+` also joins two texts.
pub open spec fn spec_term(op: TermOp, left: SpecValue, right: SpecValue) -> SpecComputed {
    match (op, left, right) {
        (TermOp::Plus, SpecValue::Number(l), SpecValue::Number(r)) => SpecComputed::Arith {
            op: ArithOp::Add,
            left: l,
            right: r,
        },
        (TermOp::Plus, SpecValue::String(l), SpecValue::String(r)) => SpecComputed::Value(
            SpecValue::String(l + r),
        ),
        (TermOp::Minus, SpecValue::Number(l), SpecValue::Number(r)) => SpecComputed::Arith {
            op: ArithOp::Sub,
            left: l,
            right: r,
        },
        (TermOp::Plus, _, _) => mismatch("Addition requires number or string operands"@),
        (TermOp::Minus, _, _) => mismatch("Subtraction requires number operands"@),
    }
}

/// `*`, `/` and `%`: on numbers, by the host. Dividing by zero fails.
pub open spec fn spec_factor(op: FactorOp, left: SpecValue, right: SpecValue) -> SpecComputed {
    match (op, left, right) {
        (FactorOp::Multiply, SpecValue::Number(l), SpecValue::Number(r)) => SpecComputed::Arith {
            op: ArithOp::Mul,
            left: l,
            right: r,
        },
        (FactorOp::Divide, SpecValue::Number(l), SpecValue::Number(r)) => if r.spec_is_zero() {
            SpecComputed::Error(SpecEvalError::DivisionByZero)
        } else {
            SpecComputed::Arith { op: ArithOp::Div, left: l, right: r }
        },
        (FactorOp::Modulus, SpecValue::Number(l), SpecValue::Number(r)) => if r.spec_is_zero() {
            SpecComputed::Error(SpecEvalError::DivisionByZero)
        } else {
            SpecComputed::Arith { op: ArithOp::Rem, left: l, right: r }
        },
        (FactorOp::Multiply, _, _) => mismatch("Multiplication requires number operands"@),
        (FactorOp::Divide, _, _) => mismatch("Division requires number operands"@),
        (FactorOp::Modulus, _, _) => mismatch("Modulus requires number operands"@),
    }
}

/// The items of `list` at the indexes that the numbers among the first `count` of `indexes`
/// stand for, in order; what is no number is passed over. The first index beyond the list fails.
pub open spec fn spec_pick(list: Seq<SpecValue>, indexes: Seq<SpecValue>, count: nat) -> Result<
    Seq<SpecValue>,
    SpecEvalError,
>
    decreases count,
{
    if count == 0 {
        Ok(Seq::empty())
    } else {
        match spec_pick(list, indexes, (count - 1) as nat) {
            Err(e) => Err(e),
            Ok(picked) => match indexes[count - 1] {
                SpecValue::Number(n) => if n.spec_to_index() < list.len() {
                    Ok(picked.push(list[n.spec_to_index() as int]))
                } else {
                    Err(SpecEvalError::IndexOutOfBounds(n.spec_to_index()))
                },
                _ => Ok(picked),
            },
        }
    }
}

/// The part of `text` from the index that the first of `indexes` stands for up to, not
/// including, the one that the last stands for.
pub open spec fn spec_between(text: Seq<char>, indexes: Seq<SpecValue>) -> Result<
    SpecValue,
    SpecEvalError,
> {
    if indexes.len() == 0 {
        Err(SpecEvalError::IndexOutOfBounds(0))
    } else {
        match (indexes[0], indexes[indexes.len() - 1]) {
            (SpecValue::Number(s), SpecValue::Number(e)) => if s.spec_to_index() > e.spec_to_index()
                || e.spec_to_index() > text.len() {
                Err(SpecEvalError::IndexOutOfBounds(e.spec_to_index()))
            } else {
                Ok(SpecValue::String(text.subrange(s.spec_to_index() as int, e.spec_to_index() as int)))
            },
            _ => Err(SpecEvalError::TypeMismatch("Indexing requires a number"@)),
        }
    }
}

/// `collection[index]`: an item of a list by a number, or a list of items by a list of
/// numbers; a character of a text by a number, or a part of it by a list of numbers.
/// An index is the integer part of its number, and is to lie within the collection.
pub open spec fn spec_index(left: SpecValue, right: SpecValue) -> Result<SpecValue, SpecEvalError> {
    match (left, right) {
        (SpecValue::List(l), SpecValue::Number(i)) => if i.spec_to_index() < l.len() {
            Ok(l[i.spec_to_index() as int])
        } else {
            Err(SpecEvalError::IndexOutOfBounds(i.spec_to_index()))
        },
        (SpecValue::List(l), SpecValue::List(ix)) => match spec_pick(l, ix, ix.len()) {
            Ok(picked) => Ok(SpecValue::List(picked)),
            Err(e) => Err(e),
        },
        (SpecValue::String(s), SpecValue::Number(i)) => if i.spec_to_index() < s.len() {
            Ok(SpecValue::String(seq![s[i.spec_to_index() as int]]))
        } else {
            Err(SpecEvalError::IndexOutOfBounds(i.spec_to_index()))
        },
        (SpecValue::String(s), SpecValue::List(ix)) => spec_between(s, ix),
        _ => Err(SpecEvalError::TypeMismatch("Indexing requires a list and a number"@)),
    }
}

/// An operation that is over: its value, or its failure.
pub open spec fn computed(r: Result<SpecValue, SpecEvalError>) -> SpecComputed {
    match r {
        Ok(v) => SpecComputed::Value(v),
        Err(e) => SpecComputed::Error(e),
    }
}

/// What an operator makes of its two operands.
/// `left |> right` is `right` applied to `left` as one more argument.
pub open spec fn spec_binary(op: BinaryOp, left: SpecValue, right: SpecValue) -> SpecComputed {
    match op {
        BinaryOp::Logic(o) => spec_logic(o, left, right),
        BinaryOp::Comp(o) => spec_comp(o, left, right),
        BinaryOp::Range => spec_range(left, right),
        BinaryOp::Term(o) => spec_term(o, left, right),
        BinaryOp::Factor(o) => spec_factor(o, left, right),
        BinaryOp::Index => computed(spec_index(left, right)),
        BinaryOp::Pipe => SpecComputed::Apply { func: right, args: seq![left] },
    }
}

/// `-` on a number, `not` on a boolean.
pub open spec fn spec_unary(op: UnaryOp, operand: SpecValue) -> Result<SpecValue, SpecEvalError> {
    match (op, operand) {
        (UnaryOp::Minus, SpecValue::Number(n)) => Ok(SpecValue::Number(n.spec_negated())),
        (UnaryOp::Not, SpecValue::Boolean(b)) => Ok(SpecValue::Boolean(!b)),
        (UnaryOp::Minus, _) => Err(SpecEvalError::TypeMismatch("Unary minus requires number operand"@)),
        (UnaryOp::Not, _) => Err(SpecEvalError::TypeMismatch("Logical NOT requires boolean operand"@)),
    }
}

/// A bound of a slice: the integer part of a number, or else `default`.
pub open spec fn spec_bound(bound: Option<SpecValue>, default: usize) -> usize {
    match bound {
        Some(SpecValue::Number(n)) => n.spec_to_index(),
        _ => default,
    }
}

/// `collection[start..end]`: the part of a list or a text from `start` up to, not including,
/// `end`. Without a `start` it begins at the beginning, without an `end` it goes to the end.
pub open spec fn spec_slice(list: SpecValue, start: Option<SpecValue>, end: Option<SpecValue>) -> Result<
    SpecValue,
    SpecEvalError,
> {
    match list {
        SpecValue::List(l) => {
            let s = spec_bound(start, 0);
            let e = spec_bound(end, l.len() as usize);
            if s <= e <= l.len() {
                Ok(SpecValue::List(l.subrange(s as int, e as int)))
            } else {
                Err(SpecEvalError::IndexOutOfBounds(e))
            }
        },
        SpecValue::String(t) => {
            let s = spec_bound(start, 0);
            let e = spec_bound(end, t.len() as usize);
            if s <= e <= t.len() {
                Ok(SpecValue::String(t.subrange(s as int, e as int)))
            } else {
                Err(SpecEvalError::IndexOutOfBounds(e))
            }
        },
        _ => Err(SpecEvalError::TypeMismatch("Slicing requires a list"@)),
    }
}

/// `record.field`: the value of a field of a record.
pub open spec fn spec_access(record: SpecValue, field: Seq<char>) -> Result<SpecValue, SpecEvalError> {
    match record {
        SpecValue::Record(fields) => match bindings_get(fields, field) {
            Some(v) => Ok(v),
            None => Err(SpecEvalError::FieldNotFound(field)),
        },
        _ => Err(SpecEvalError::TypeMismatch("Access requires a record"@)),
    }
}

fn type_error(context: &str) -> (e: EvalError)
    ensures
        e@ == SpecEvalError::TypeMismatch(context@),
{
    EvalError::TypeMismatch(String::from_str(context))
}

fn wrong(context: &str) -> (c: Computed)
    ensures
        c@ == mismatch(context@),
{
    Computed::Error(type_error(context))
}

fn logic(op: LogicOp, left: Value, right: Value) -> (c: Computed)
    ensures
        c@ == spec_logic(op, left@, right@),
{
    match (op, left, right) {
        (LogicOp::And, Value::Boolean(l), Value::Boolean(r)) => Computed::Value(Value::Boolean(l && r)),
        (LogicOp::Or, Value::Boolean(l), Value::Boolean(r)) => Computed::Value(Value::Boolean(l || r)),
        (LogicOp::And, _, _) => wrong("Logical AND requires boolean operands"),
        (LogicOp::Or, _, _) => wrong("Logical OR requires boolean operands"),
    }
}

fn comp(op: CompOp, left: Value, right: Value) -> (c: Computed)
    ensures
        c@ == spec_comp(op, left@, right@),
{
    match op {
        CompOp::Equal => match equal(&left, &right) {
            Some(b) => Computed::Value(Value::Boolean(b)),
            None => wrong("Equality comparison requires same type"),
        },
        CompOp::NotEqual => match equal(&left, &right) {
            Some(b) => Computed::Value(Value::Boolean(!b)),
            None => wrong("Inequality comparison requires same type"),
        },
        CompOp::LessThan => match (left, right) {
            (Value::Number(l), Value::Number(r)) => Computed::Value(Value::Boolean(l.less(r))),
            _ => wrong("Less than comparison requires number operands"),
        },
        CompOp::LessThanOrEqual => match (left, right) {
            (Value::Number(l), Value::Number(r)) => Computed::Value(Value::Boolean(l.at_most(r))),
            _ => wrong("Less than or equal comparison requires number operands"),
        },
        CompOp::GreaterThan => match (left, right) {
            (Value::Number(l), Value::Number(r)) => Computed::Value(Value::Boolean(r.less(l))),
            _ => wrong("Greater than comparison requires number operands"),
        },
        CompOp::GreaterThanOrEqual => match (left, right) {
            (Value::Number(l), Value::Number(r)) => Computed::Value(Value::Boolean(r.at_most(l))),
            _ => wrong("Greater than or equal comparison requires number operands"),
        },
    }
}

fn range(left: Value, right: Value) -> (c: Computed)
    ensures
        c@ == spec_range(left@, right@),
{
    match (left, right) {
        (Value::Number(s), Value::Number(e)) => {
            if !s.at_most(e) {
                return wrong("Start of range must be less than or equal to end");
            }
            let first = s.to_index();
            let last = e.to_index();
            if last == usize::MAX {
                return Computed::Error(EvalError::IndexOutOfBounds(usize::MAX));
            }
            let mut items: Vec<Value> = Vec::new();
            let mut i: usize = first;
            while i <= last
                invariant
                    last < usize::MAX,
                    first <= i,
                    last >= first ==> i <= last + 1,
                    last < first ==> i == first,
                    items.len() == i - first,
                    forall|j: int|
                        0 <= j < i - first ==> items@[j]@ == SpecValue::Number(
                            spec_from_index((first + j) as nat),
                        ),
                decreases last + 1 - i,
            {
                items.push(Value::Number(Num::from_index(i)));
                i += 1;
            }
            assert(values_view(items@).len() == count_up(first, last).len());
            assert forall|j: int| 0 <= j < items.len() implies values_view(items@)[j] == count_up(
                first,
                last,
            )[j] by {
                assert(values_view(items@)[j] == items@[j]@);
            }
            assert(values_view(items@) =~= count_up(first, last));
            Computed::Value(Value::List(items))
        },
        _ => wrong("Range requires number operands"),
    }
}

fn term(op: TermOp, left: Value, right: Value) -> (c: Computed)
    ensures
        c@ == spec_term(op, left@, right@),
{
    match (op, left, right) {
        (TermOp::Plus, Value::Number(l), Value::Number(r)) => Computed::Arith {
            op: ArithOp::Add,
            left: l,
            right: r,
        },
        (TermOp::Plus, Value::String(l), Value::String(r)) => {
            let mut s = l;
            s.append(r.as_str());
            Computed::Value(Value::String(s))
        },
        (TermOp::Minus, Value::Number(l), Value::Number(r)) => Computed::Arith {
            op: ArithOp::Sub,
            left: l,
            right: r,
        },
        (TermOp::Plus, _, _) => wrong("Addition requires number or string operands"),
        (TermOp::Minus, _, _) => wrong("Subtraction requires number operands"),
    }
}

fn factor(op: FactorOp, left: Value, right: Value) -> (c: Computed)
    ensures
        c@ == spec_factor(op, left@, right@),
{
    match (op, left, right) {
        (FactorOp::Multiply, Value::Number(l), Value::Number(r)) => Computed::Arith {
            op: ArithOp::Mul,
            left: l,
            right: r,
        },
        (FactorOp::Divide, Value::Number(l), Value::Number(r)) => {
            if r.is_zero() {
                Computed::Error(EvalError::DivisionByZero)
            } else {
                Computed::Arith { op: ArithOp::Div, left: l, right: r }
            }
        },
        (FactorOp::Modulus, Value::Number(l), Value::Number(r)) => {
            if r.is_zero() {
                Computed::Error(EvalError::DivisionByZero)
            } else {
                Computed::Arith { op: ArithOp::Rem, left: l, right: r }
            }
        },
        (FactorOp::Multiply, _, _) => wrong("Multiplication requires number operands"),
        (FactorOp::Divide, _, _) => wrong("Division requires number operands"),
        (FactorOp::Modulus, _, _) => wrong("Modulus requires number operands"),
    }
}

fn pick(list: &Vec<Value>, indexes: &Vec<Value>) -> (r: Result<Vec<Value>, EvalError>)
    ensures
        match r {
            Ok(picked) => spec_pick(values_view(list@), values_view(indexes@), indexes.len() as nat)
                == Ok::<Seq<SpecValue>, SpecEvalError>(values_view(picked@)),
            Err(e) => spec_pick(values_view(list@), values_view(indexes@), indexes.len() as nat)
                == Err::<Seq<SpecValue>, SpecEvalError>(e@),
        },
{
    let mut picked: Vec<Value> = Vec::new();
    assert(values_view(picked@) =~= Seq::empty());
    let mut i: usize = 0;
    while i < indexes.len()
        invariant
            i <= indexes.len(),
            spec_pick(values_view(list@), values_view(indexes@), i as nat) == Ok::<
                Seq<SpecValue>,
                SpecEvalError,
            >(values_view(picked@)),
        decreases indexes.len() - i,
    {
        let ghost before = values_view(picked@);
        assert(values_view(indexes@)[i as int] == indexes@[i as int]@);
        if let Value::Number(n) = &indexes[i] {
            let idx = n.to_index();
            if idx < list.len() {
                let item = list[idx].clone();
                picked.push(item);
                assert(values_view(picked@) =~= before.push(values_view(list@)[idx as int]));
            } else {
                proof {
                    lemma_pick_fails(
                        values_view(list@),
                        values_view(indexes@),
                        (i + 1) as nat,
                        indexes.len() as nat,
                    );
                }
                return Err(EvalError::IndexOutOfBounds(idx));
            }
        }
        i += 1;
    }
    Ok(picked)
}

/// Once picking has failed, it fails in the same way however many more indexes follow.
proof fn lemma_pick_fails(list: Seq<SpecValue>, indexes: Seq<SpecValue>, count: nat, more: nat)
    requires
        count <= more,
        spec_pick(list, indexes, count) is Err,
    ensures
        spec_pick(list, indexes, more) == spec_pick(list, indexes, count),
    decreases more,
{
    if count < more {
        lemma_pick_fails(list, indexes, count, (more - 1) as nat);
    }
}

fn between(text: &String, indexes: &Vec<Value>) -> (r: Result<Value, EvalError>)
    ensures
        outcome_view(r) == spec_between(text@, values_view(indexes@)),
{
    if indexes.len() == 0 {
        return Err(EvalError::IndexOutOfBounds(0));
    }
    assert(values_view(indexes@)[0] == indexes@[0]@);
    assert(values_view(indexes@)[indexes.len() - 1] == indexes@[indexes.len() - 1]@);
    match (&indexes[0], &indexes[indexes.len() - 1]) {
        (Value::Number(s), Value::Number(e)) => {
            let chars = chars_of(text.as_str());
            let start = s.to_index();
            let end = e.to_index();
            if start > end || end > chars.len() {
                Err(EvalError::IndexOutOfBounds(end))
            } else {
                Ok(Value::String(string_of(&chars, start, end)))
            }
        },
        _ => Err(type_error("Indexing requires a number")),
    }
}

/// `collection[index]`.
pub fn index(left: Value, right: Value) -> (r: Result<Value, EvalError>)
    ensures
        outcome_view(r) == spec_index(left@, right@),
{
    match (&left, &right) {
        (Value::List(l), Value::Number(i)) => {
            let idx = i.to_index();
            if idx < l.len() {
                assert(values_view(l@)[idx as int] == l@[idx as int]@);
                Ok(l[idx].clone())
            } else {
                Err(EvalError::IndexOutOfBounds(idx))
            }
        },
        (Value::List(l), Value::List(ix)) => match pick(l, ix) {
            Ok(picked) => Ok(Value::List(picked)),
            Err(e) => Err(e),
        },
        (Value::String(s), Value::Number(i)) => {
            let chars = chars_of(s.as_str());
            let idx = i.to_index();
            if idx < chars.len() {
                let one = string_of(&chars, idx, idx + 1);
                assert(one@ =~= seq![s@[idx as int]]);
                Ok(Value::String(one))
            } else {
                Err(EvalError::IndexOutOfBounds(idx))
            }
        },
        (Value::String(s), Value::List(ix)) => between(s, ix),
        _ => Err(type_error("Indexing requires a list and a number")),
    }
}

/// What an operator makes of its two operands.
pub fn binary(op: BinaryOp, left: Value, right: Value) -> (c: Computed)
    ensures
        c@ == spec_binary(op, left@, right@),
{
    match op {
        BinaryOp::Logic(o) => logic(o, left, right),
        BinaryOp::Comp(o) => comp(o, left, right),
        BinaryOp::Range => range(left, right),
        BinaryOp::Term(o) => term(o, left, right),
        BinaryOp::Factor(o) => factor(o, left, right),
        BinaryOp::Index => match index(left, right) {
            Ok(v) => Computed::Value(v),
            Err(e) => Computed::Error(e),
        },
        BinaryOp::Pipe => {
            let mut args: Vec<Value> = Vec::new();
            args.push(left);
            assert(values_view(args@) =~= seq![left@]);
            Computed::Apply { func: right, args }
        },
    }
}

/// `-` on a number, `not` on a boolean.
pub fn unary(op: UnaryOp, operand: Value) -> (r: Result<Value, EvalError>)
    ensures
        outcome_view(r) == spec_unary(op, operand@),
{
    match (op, operand) {
        (UnaryOp::Minus, Value::Number(n)) => Ok(Value::Number(n.negated())),
        (UnaryOp::Not, Value::Boolean(b)) => Ok(Value::Boolean(!b)),
        (UnaryOp::Minus, _) => Err(type_error("Unary minus requires number operand")),
        (UnaryOp::Not, _) => Err(type_error("Logical NOT requires boolean operand")),
    }
}

fn bound(value: &Option<Value>, default: usize) -> (r: usize)
    ensures
        r == spec_bound(
            match value {
                Some(v) => Some(v@),
                None => None,
            },
            default,
        ),
{
    match value {
        Some(Value::Number(n)) => n.to_index(),
        _ => default,
    }
}

/// The value of an optional value.
pub open spec fn option_view(v: Option<Value>) -> Option<SpecValue> {
    match v {
        Some(v) => Some(v@),
        None => None,
    }
}

/// `collection[start..end]`.
pub fn slice(list: Value, start: Option<Value>, end: Option<Value>) -> (r: Result<Value, EvalError>)
    ensures
        outcome_view(r) == spec_slice(list@, option_view(start), option_view(end)),
{
    match &list {
        Value::List(l) => {
            let s = bound(&start, 0);
            let e = bound(&end, l.len());
            if s <= e && e <= l.len() {
                Ok(Value::List(clone_range(l, s, e)))
            } else {
                Err(EvalError::IndexOutOfBounds(e))
            }
        },
        Value::String(t) => {
            let chars = chars_of(t.as_str());
            let s = bound(&start, 0);
            let e = bound(&end, chars.len());
            if s <= e && e <= chars.len() {
                Ok(Value::String(string_of(&chars, s, e)))
            } else {
                Err(EvalError::IndexOutOfBounds(e))
            }
        },
        _ => Err(type_error("Slicing requires a list")),
    }
}

/// `record.field`.
pub fn access(record: Value, field: &String) -> (r: Result<Value, EvalError>)
    ensures
        outcome_view(r) == spec_access(record@, field@),
{
    match &record {
        Value::Record(fields) => match get_binding(fields, field.as_str()) {
            Some(v) => Ok(v.clone()),
            None => Err(EvalError::FieldNotFound(field.clone())),
        },
        _ => Err(type_error("Access requires a record")),
    }
}

} // verus!
