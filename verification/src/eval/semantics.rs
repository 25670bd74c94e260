use crate::ast::{SpecCase, SpecExpr, SpecPattern, SpecStmt};
use crate::eval::builtin::etc::{spec_empty, spec_len, spec_not_empty};
use crate::eval::builtin::file::spec_read_file;
use crate::eval::builtin::io::spec_print;
use crate::eval::builtin::list::{
    spec_append, spec_filter, spec_first, spec_last, spec_map, spec_second, spec_sum, spec_tail, spec_third,
};
use crate::eval::builtin::num::spec_str;
use crate::eval::builtin::str::{spec_int, spec_split};
use crate::eval::env::{bind, bindings_put, lemma_lookup_after_set, lemma_set_twice, lookup, SpecEnv};
use crate::eval::error::{spec_message, SpecEvalError};
use crate::eval::eval_func::{spec_apply, SpecApplied};
use crate::eval::machine::{SpecAction, SpecEvent, SpecFrame, SpecMachine, SpecOutcome, SpecState};
use crate::eval::ops::{
    spec_access, spec_binary, spec_slice, spec_unary, ArithOp, BinaryOp, SpecComputed,
};
use crate::eval::value::SpecValue;
use crate::lexer::tokens_from;
use crate::number::Num;
use crate::parser::error::spec_parse_message;
use crate::parser::grammar::parse_program;
use vstd::prelude::*;

verus! {

/// The machine in another state.
pub open spec fn with_state(m: SpecMachine, state: SpecState) -> SpecMachine {
    SpecMachine { current_dir: m.current_dir, stack: m.stack, state }
}

/// The machine between two steps: its state taken out.
pub open spec fn idle(m: SpecMachine) -> SpecMachine {
    with_state(m, SpecState::Idle)
}

/// The machine with one more frame on its stack.
pub open spec fn pushed(m: SpecMachine, frame: SpecFrame) -> SpecMachine {
    SpecMachine { current_dir: m.current_dir, stack: m.stack.push(frame), state: m.state }
}

/// The machine without the frame on top of its stack.
pub open spec fn popped(m: SpecMachine) -> SpecMachine {
    SpecMachine { current_dir: m.current_dir, stack: m.stack.drop_last(), state: m.state }
}

/// The machine goes to `state`, and asks nothing of the host.
pub open spec fn goto(m: SpecMachine, state: SpecState) -> (SpecMachine, SpecAction) {
    (with_state(m, state), SpecAction::Continue)
}

/// The machine goes on to hand `value` to the frame on top of its stack.
pub open spec fn give(m: SpecMachine, value: SpecValue) -> (SpecMachine, SpecAction) {
    goto(m, SpecState::Return { value })
}

/// The machine goes on to evaluate `expr` in `env`.
pub open spec fn begin(m: SpecMachine, expr: SpecExpr, env: SpecEnv) -> (SpecMachine, SpecAction) {
    goto(m, SpecState::Eval { expr, env })
}

/// The machine goes on to apply `func` to `args`.
pub open spec fn call(m: SpecMachine, func: SpecValue, args: Seq<SpecValue>) -> (SpecMachine, SpecAction) {
    goto(m, SpecState::Apply { func, args })
}

/// The machine asks `action` of the host, and waits in `state` for the answer.
pub open spec fn ask(m: SpecMachine, state: SpecState, action: SpecAction) -> (SpecMachine, SpecAction) {
    (with_state(m, state), action)
}

/// A failure, as it leaves the modules that the first `count` frames of the stack import,
/// the innermost first: each module names itself before what failed inside it.
pub open spec fn wrapped(stack: Seq<SpecFrame>, count: nat, e: SpecEvalError) -> SpecEvalError
    decreases count,
{
    if count == 0 {
        e
    } else {
        match stack[count - 1] {
            SpecFrame::Program { stmts, next, env, pending, module: Some(name) } => wrapped(
                stack,
                (count - 1) as nat,
                SpecEvalError::IOError("Failed to evaluate module "@ + name + ": "@ + spec_message(e)),
            ),
            _ => wrapped(stack, (count - 1) as nat, e),
        }
    }
}

/// The environment of the program at the bottom of the stack, if there is one:
/// what its statements have built so far.
pub open spec fn built_so_far(stack: Seq<SpecFrame>) -> Option<SpecEnv> {
    if stack.len() > 0 {
        match stack[0] {
            SpecFrame::Program { stmts, next, env, pending, module } => Some(env),
            _ => None,
        }
    } else {
        None
    }
}

/// The evaluation fails: nothing is left to do, and the host is told why, and what the
/// program had built before.
pub open spec fn fail(m: SpecMachine, e: SpecEvalError) -> (SpecMachine, SpecAction) {
    (
        SpecMachine { current_dir: m.current_dir, stack: Seq::empty(), state: SpecState::Idle },
        SpecAction::Failed { error: wrapped(m.stack, m.stack.len(), e), env: built_so_far(m.stack) },
    )
}

/// The evaluation fails on an operand of the wrong kind.
pub open spec fn wrong(m: SpecMachine, context: Seq<char>) -> (SpecMachine, SpecAction) {
    fail(m, SpecEvalError::TypeMismatch(context))
}

/// The machine goes on with the value of an operation, or fails with its failure.
pub open spec fn finish(m: SpecMachine, r: Result<SpecValue, SpecEvalError>) -> (SpecMachine, SpecAction) {
    match r {
        Ok(v) => give(m, v),
        Err(e) => fail(m, e),
    }
}

/// The machine goes on with the value that a builtin function returned, or fails with
/// its message.
pub open spec fn finish_builtin(m: SpecMachine, r: Result<SpecValue, Seq<char>>) -> (
    SpecMachine,
    SpecAction,
) {
    match r {
        Ok(v) => give(m, v),
        Err(message) => wrong(m, message),
    }
}

/// What an operator came to: the machine goes on with its value, asks the host for it,
/// applies a function for it, or fails.
pub open spec fn spec_computed(m: SpecMachine, c: SpecComputed) -> (SpecMachine, SpecAction) {
    match c {
        SpecComputed::Value(v) => give(m, v),
        SpecComputed::Arith { op, left, right } => ask(
            m,
            SpecState::AwaitArith,
            SpecAction::Arith { op, left, right },
        ),
        SpecComputed::Apply { func, args } => call(m, func, args),
        SpecComputed::Error(e) => fail(m, e),
    }
}

/// What is in a box, if there is one.
pub open spec fn unbox(e: Option<Box<SpecExpr>>) -> Option<SpecExpr> {
    match e {
        Some(b) => Some(*b),
        None => None,
    }
}

/// The operands of an operator are evaluated from left to right: first the left one.
pub open spec fn operands(m: SpecMachine, op: BinaryOp, left: SpecExpr, right: SpecExpr, env: SpecEnv) -> (
    SpecMachine,
    SpecAction,
) {
    begin(pushed(m, SpecFrame::Left { op, right, env }), left, env)
}

/// The step that evaluates `expr` in `env`.
///
/// A text and a boolean are their own values; the number of a literal is asked of the host.
/// A name stands for what the innermost frame that binds it says. A function literal is a
/// closure over `env`. Of everything else a first part is evaluated, and a frame on the stack
/// says what is left to do with its value.
pub open spec fn spec_eval_expr(m: SpecMachine, expr: SpecExpr, env: SpecEnv) -> (SpecMachine, SpecAction) {
    match expr {
        SpecExpr::Number(text) => ask(m, SpecState::AwaitLiteral, SpecAction::ParseNumber(text)),
        SpecExpr::String(s) => give(m, SpecValue::String(s)),
        SpecExpr::Boolean(b) => give(m, SpecValue::Boolean(b)),
        SpecExpr::Identifier(name) => match lookup(env, name) {
            Some(v) => give(m, v),
            None => fail(m, SpecEvalError::UndefinedVariable(name)),
        },
        SpecExpr::Func { params, body } => give(m, SpecValue::Func { params, body, env: Box::new(env) }),
        SpecExpr::If { cond, then, else_ } => begin(
            pushed(m, SpecFrame::If { then: *then, else_: *else_, env }),
            *cond,
            env,
        ),
        SpecExpr::Match { cond, cases } => begin(pushed(m, SpecFrame::Match { cases, env }), *cond, env),
        SpecExpr::List(items) => if items.len() == 0 {
            give(m, SpecValue::List(Seq::empty()))
        } else {
            begin(pushed(m, SpecFrame::List { items, done: Seq::empty(), env }), items[0], env)
        },
        SpecExpr::Record(fields) => if fields.len() == 0 {
            give(m, SpecValue::Record(Seq::empty()))
        } else {
            begin(
                pushed(m, SpecFrame::Record { fields, next: 0, done: Seq::empty(), env }),
                fields[0].1,
                env,
            )
        },
        SpecExpr::Pipe { left, right } => operands(m, BinaryOp::Pipe, *left, *right, env),
        SpecExpr::Logic { left, op, right } => operands(m, BinaryOp::Logic(op), *left, *right, env),
        SpecExpr::Comp { left, op, right } => operands(m, BinaryOp::Comp(op), *left, *right, env),
        SpecExpr::Range { start, end } => operands(m, BinaryOp::Range, *start, *end, env),
        SpecExpr::Term { left, op, right } => operands(m, BinaryOp::Term(op), *left, *right, env),
        SpecExpr::Factor { left, op, right } => operands(m, BinaryOp::Factor(op), *left, *right, env),
        SpecExpr::Index { list, index } => operands(m, BinaryOp::Index, *list, *index, env),
        SpecExpr::Unary { op, right } => begin(pushed(m, SpecFrame::Unary { op }), *right, env),
        SpecExpr::Slice { list, start, end } => begin(
            pushed(m, SpecFrame::SliceList { start: unbox(start), end: unbox(end), env }),
            *list,
            env,
        ),
        SpecExpr::Access { record, field } => begin(pushed(m, SpecFrame::Access { field }), *record, env),
        SpecExpr::Call { name, args } => begin(pushed(m, SpecFrame::Callee { args, env }), *name, env),
    }
}

/// How many arguments a function takes before it is called; nothing for what is no function.
pub open spec fn spec_arity(v: SpecValue) -> Option<nat> {
    match v {
        SpecValue::Func { params, body, env } => Some(params.len()),
        SpecValue::BuiltinFunc { name, length, curried } => Some(length),
        _ => None,
    }
}

/// The index after `next`, among `len` of them; an index that is none of them stays.
pub open spec fn succ(next: nat, len: nat) -> nat {
    if next < len {
        next + 1
    } else {
        next
    }
}

/// `filter`: the items that stay, with `item` added where `verdict`, what the function made
/// of it, is `true`.
pub open spec fn kept_with(kept: Seq<SpecValue>, item: SpecValue, verdict: SpecValue) -> Seq<SpecValue> {
    if verdict == SpecValue::Boolean(true) {
        kept.push(item)
    } else {
        kept
    }
}

/// The value of an item of a list has come: the next item is evaluated, or the list is
/// complete.
pub open spec fn spec_resume_list(
    rest: SpecMachine,
    items: Seq<SpecExpr>,
    done: Seq<SpecValue>,
    env: SpecEnv,
    value: SpecValue,
) -> (SpecMachine, SpecAction) {
    if done.len() + 1 >= items.len() {
        give(rest, SpecValue::List(done.push(value)))
    } else {
        begin(
            pushed(rest, SpecFrame::List { items, done: done.push(value), env }),
            items[done.len() as int + 1],
            env,
        )
    }
}

/// The value of field number `next` of a record has come: it is bound to the name of the
/// field, in place of an earlier field of that name; the next field is evaluated, or the
/// record is complete.
pub open spec fn spec_resume_record(
    rest: SpecMachine,
    fields: Seq<(Seq<char>, SpecExpr)>,
    next: nat,
    done: Seq<(Seq<char>, SpecValue)>,
    env: SpecEnv,
    value: SpecValue,
) -> (SpecMachine, SpecAction) {
    if next >= fields.len() {
        give(rest, SpecValue::Record(done))
    } else if next + 1 >= fields.len() {
        give(rest, SpecValue::Record(bindings_put(done, fields[next as int].0, value)))
    } else {
        begin(
            pushed(
                rest,
                SpecFrame::Record {
                    fields,
                    next: next + 1,
                    done: bindings_put(done, fields[next as int].0, value),
                    env,
                },
            ),
            fields[next as int + 1].1,
            env,
        )
    }
}

/// The collection of a slice has come: it is to be a list or a text. Its bounds are
/// evaluated next, the start before the end.
pub open spec fn spec_resume_slice(
    rest: SpecMachine,
    start: Option<SpecExpr>,
    end: Option<SpecExpr>,
    env: SpecEnv,
    value: SpecValue,
) -> (SpecMachine, SpecAction) {
    if !(value is List || value is String) {
        wrong(rest, "Slicing requires a list"@)
    } else {
        match (start, end) {
            (Some(e), _) => begin(pushed(rest, SpecFrame::SliceStart { list: value, end, env }), e, env),
            (None, Some(e)) => begin(pushed(rest, SpecFrame::SliceEnd { list: value, start: None }), e, env),
            (None, None) => finish(rest, spec_slice(value, None, None)),
        }
    }
}

/// The function of a call has come: it is to be a function, and to take as many arguments
/// as the call gives, or more. The arguments are evaluated next, from left to right, in the
/// frame of the caller.
pub open spec fn spec_resume_callee(rest: SpecMachine, args: Seq<SpecExpr>, env: SpecEnv, value: SpecValue) -> (
    SpecMachine,
    SpecAction,
) {
    match spec_arity(value) {
        None => wrong(rest, "Function call requires a function"@),
        Some(n) => if args.len() > n {
            fail(rest, SpecEvalError::ArityMismatch(n as usize, args.len() as usize))
        } else if args.len() == 0 {
            call(rest, value, Seq::empty())
        } else {
            begin(
                pushed(rest, SpecFrame::Args { callee: value, args, done: Seq::empty(), env }),
                args[0],
                env,
            )
        },
    }
}

/// The value of an argument of a call has come: the next argument is evaluated, or the
/// function is applied to all of them.
pub open spec fn spec_resume_args(
    rest: SpecMachine,
    callee: SpecValue,
    args: Seq<SpecExpr>,
    done: Seq<SpecValue>,
    env: SpecEnv,
    value: SpecValue,
) -> (SpecMachine, SpecAction) {
    if done.len() + 1 >= args.len() {
        call(rest, callee, done.push(value))
    } else {
        begin(
            pushed(rest, SpecFrame::Args { callee, args, done: done.push(value), env }),
            args[done.len() as int + 1],
            env,
        )
    }
}

/// `map`: the image of an item has come: the function is applied to the next item, or the
/// list of the images is complete.
pub open spec fn spec_resume_mapping(
    rest: SpecMachine,
    func: SpecValue,
    items: Seq<SpecValue>,
    done: Seq<SpecValue>,
    value: SpecValue,
) -> (SpecMachine, SpecAction) {
    if done.len() + 1 >= items.len() {
        give(rest, SpecValue::List(done.push(value)))
    } else {
        call(
            pushed(rest, SpecFrame::Mapping { func, items, done: done.push(value) }),
            func,
            seq![items[done.len() as int + 1]],
        )
    }
}

/// `filter`: what the function made of item number `next` has come: the item stays if it is
/// `true`; the function is applied to the next item, or the list of those that stay is complete.
pub open spec fn spec_resume_filtering(
    rest: SpecMachine,
    func: SpecValue,
    items: Seq<SpecValue>,
    next: nat,
    kept: Seq<SpecValue>,
    value: SpecValue,
) -> (SpecMachine, SpecAction) {
    if next >= items.len() {
        give(rest, SpecValue::List(kept))
    } else if next + 1 >= items.len() {
        give(rest, SpecValue::List(kept_with(kept, items[next as int], value)))
    } else {
        call(
            pushed(
                rest,
                SpecFrame::Filtering {
                    func,
                    items,
                    next: next + 1,
                    kept: kept_with(kept, items[next as int], value),
                },
            ),
            func,
            seq![items[next as int + 1]],
        )
    }
}

/// The step that hands `value` to the frame on top of the stack: the frame comes off, and what
/// it left to do is done. With nothing on the stack the evaluation is over, and `value` is
/// its outcome.
pub open spec fn spec_resume(m: SpecMachine, value: SpecValue) -> (SpecMachine, SpecAction) {
    if m.stack.len() == 0 {
        (m, SpecAction::Done(SpecOutcome::Value(value)))
    } else {
        let rest = popped(m);
        match m.stack.last() {
            SpecFrame::Program { stmts, next, env, pending, module } => goto(
                pushed(
                    rest,
                    SpecFrame::Program {
                        stmts,
                        next: succ(next, stmts.len()),
                        env: match pending {
                            Some(name) => bind(env, name, value),
                            None => env,
                        },
                        pending: None,
                        module,
                    },
                ),
                SpecState::Run,
            ),
            SpecFrame::If { then, else_, env } => match value {
                SpecValue::Boolean(true) => begin(rest, then, env),
                SpecValue::Boolean(false) => begin(rest, else_, env),
                _ => wrong(rest, "Condition must be a boolean"@),
            },
            SpecFrame::Match { cases, env } => goto(
                rest,
                SpecState::Scan { subject: value, cases, next: 0, env },
            ),
            SpecFrame::List { items, done, env } => spec_resume_list(rest, items, done, env, value),
            SpecFrame::Record { fields, next, done, env } => spec_resume_record(
                rest,
                fields,
                next,
                done,
                env,
                value,
            ),
            SpecFrame::Left { op, right, env } => begin(
                pushed(rest, SpecFrame::Right { op, left: value }),
                right,
                env,
            ),
            SpecFrame::Right { op, left } => spec_computed(rest, spec_binary(op, left, value)),
            SpecFrame::Unary { op } => finish(rest, spec_unary(op, value)),
            SpecFrame::SliceList { start, end, env } => spec_resume_slice(rest, start, end, env, value),
            SpecFrame::SliceStart { list, end, env } => match end {
                Some(e) => begin(pushed(rest, SpecFrame::SliceEnd { list, start: Some(value) }), e, env),
                None => finish(rest, spec_slice(list, Some(value), None)),
            },
            SpecFrame::SliceEnd { list, start } => finish(rest, spec_slice(list, start, Some(value))),
            SpecFrame::Access { field } => finish(rest, spec_access(value, field)),
            SpecFrame::Callee { args, env } => spec_resume_callee(rest, args, env, value),
            SpecFrame::Args { callee, args, done, env } => spec_resume_args(
                rest,
                callee,
                args,
                done,
                env,
                value,
            ),
            SpecFrame::Mapping { func, items, done } => spec_resume_mapping(rest, func, items, done, value),
            SpecFrame::Filtering { func, items, next, kept } => spec_resume_filtering(
                rest,
                func,
                items,
                next,
                kept,
                value,
            ),
        }
    }
}

/// The machine in which the program `frame` lies on top of `rest`.
pub open spec fn running(
    rest: SpecMachine,
    stmts: Seq<SpecStmt>,
    next: nat,
    env: SpecEnv,
    pending: Option<Seq<char>>,
) -> SpecMachine {
    pushed(rest, SpecFrame::Program { stmts, next, env, pending, module: None })
}

/// What a `let` does: when the value of its expression has come, the program goes on with
/// its next statement in a frame in which the name stands for the value, and every other
/// name for what it stood for. To execute the same `let` once more, with the same value,
/// leaves the frame as it is.
pub proof fn lemma_let_binds(
    rest: SpecMachine,
    stmts: Seq<SpecStmt>,
    next: nat,
    env: SpecEnv,
    name: Seq<char>,
    value: SpecValue,
    other: Seq<char>,
)
    ensures
        spec_resume(running(rest, stmts, next, env, Some(name)), value) == goto(
            running(rest, stmts, succ(next, stmts.len()), bind(env, name, value), None),
            SpecState::Run,
        ),
        lookup(bind(env, name, value), name) == Some(value),
        other != name ==> lookup(bind(env, name, value), other) == lookup(env, other),
        bind(bind(env, name, value), name, value) == bind(env, name, value),
{
    let frame = SpecFrame::Program { stmts, next, env, pending: Some(name), module: None };
    assert(rest.stack.push(frame).drop_last() =~= rest.stack);
    lemma_lookup_after_set(env, name, value, name);
    lemma_lookup_after_set(env, name, value, other);
    lemma_set_twice(env, name, value);
}

/// The step that invokes the builtin function `name` on `args`, of which it has as many as
/// it takes. What needs the host is asked of it; `map` and `filter` go on to apply their
/// function to the first item.
pub open spec fn spec_invoke(m: SpecMachine, name: Seq<char>, args: Seq<SpecValue>) -> (
    SpecMachine,
    SpecAction,
) {
    if name == "print"@ {
        match spec_print(args, "print: expected one argument"@) {
            Ok(parts) => ask(m, SpecState::AwaitPrint, SpecAction::Print { parts, newline: false }),
            Err(message) => wrong(m, message),
        }
    } else if name == "println"@ {
        match spec_print(args, "println: expected one argument"@) {
            Ok(parts) => ask(m, SpecState::AwaitPrint, SpecAction::Print { parts, newline: true }),
            Err(message) => wrong(m, message),
        }
    } else if name == "read_file"@ {
        match spec_read_file(args) {
            Ok(path) => ask(m, SpecState::AwaitRead, SpecAction::ReadFile(path)),
            Err(message) => wrong(m, message),
        }
    } else if name == "map"@ {
        match spec_map(args) {
            Ok((func, items)) => if items.len() == 0 {
                give(m, SpecValue::List(Seq::empty()))
            } else {
                call(
                    pushed(m, SpecFrame::Mapping { func, items, done: Seq::empty() }),
                    func,
                    seq![items[0]],
                )
            },
            Err(message) => wrong(m, message),
        }
    } else if name == "filter"@ {
        match spec_filter(args) {
            Ok((func, items)) => if items.len() == 0 {
                give(m, SpecValue::List(Seq::empty()))
            } else {
                call(
                    pushed(m, SpecFrame::Filtering { func, items, next: 0, kept: Seq::empty() }),
                    func,
                    seq![items[0]],
                )
            },
            Err(message) => wrong(m, message),
        }
    } else if name == "sum"@ {
        match spec_sum(args) {
            Ok(numbers) => goto(m, SpecState::Sum { numbers, next: 0, total: Num { bits: 0 } }),
            Err(message) => wrong(m, message),
        }
    } else if name == "int"@ {
        match spec_int(args) {
            Ok(text) => ask(m, SpecState::AwaitInt, SpecAction::ParseNumber(text)),
            Err(message) => wrong(m, message),
        }
    } else if name == "str"@ {
        match spec_str(args) {
            Ok(n) => ask(m, SpecState::AwaitStr, SpecAction::FormatNumber(n)),
            Err(message) => wrong(m, message),
        }
    } else if name == "append"@ {
        finish_builtin(m, spec_append(args))
    } else if name == "first"@ {
        finish_builtin(m, spec_first(args))
    } else if name == "second"@ {
        finish_builtin(m, spec_second(args))
    } else if name == "third"@ {
        finish_builtin(m, spec_third(args))
    } else if name == "tail"@ {
        finish_builtin(m, spec_tail(args))
    } else if name == "last"@ {
        finish_builtin(m, spec_last(args))
    } else if name == "split"@ {
        finish_builtin(m, spec_split(args))
    } else if name == "len"@ {
        finish_builtin(m, spec_len(args))
    } else if name == "empty"@ {
        finish_builtin(m, spec_empty(args))
    } else if name == "not_empty"@ {
        finish_builtin(m, spec_not_empty(args))
    } else {
        fail(m, SpecEvalError::UndefinedVariable(name))
    }
}

/// The step that applies `func` to `args`: the body of a closure is evaluated in the frame
/// of the call, a builtin function is invoked, and a function that got too few arguments is
/// itself the value, waiting for the rest.
pub open spec fn spec_call(m: SpecMachine, func: SpecValue, args: Seq<SpecValue>) -> (
    SpecMachine,
    SpecAction,
) {
    match spec_apply(func, args) {
        SpecApplied::Enter { body, env } => begin(m, body, env),
        SpecApplied::Value(v) => give(m, v),
        SpecApplied::Invoke { name, args } => spec_invoke(m, name, args),
        SpecApplied::Error(e) => fail(m, e),
    }
}

/// The step that tries case number `next` of a `match` on `subject`. The cases are tried in
/// order; the first whose pattern matches gives the value. A pattern matches a value of its
/// own kind that is equal to it, and `_` matches everything. The number of a number pattern
/// is asked of the host. When no case is left, the `match` fails.
pub open spec fn spec_scan(
    m: SpecMachine,
    subject: SpecValue,
    cases: Seq<SpecCase>,
    next: nat,
    env: SpecEnv,
) -> (SpecMachine, SpecAction) {
    if next >= cases.len() {
        fail(m, SpecEvalError::PatternMatchExhausted)
    } else {
        let skip = goto(m, SpecState::Scan { subject, cases, next: next + 1, env });
        match cases[next as int].pattern {
            SpecPattern::Wildcard => begin(m, cases[next as int].body, env),
            SpecPattern::Boolean(b) => if subject == SpecValue::Boolean(b) {
                begin(m, cases[next as int].body, env)
            } else {
                skip
            },
            SpecPattern::String(s) => if subject == SpecValue::String(s) {
                begin(m, cases[next as int].body, env)
            } else {
                skip
            },
            SpecPattern::Number(text) => if subject is Number {
                ask(
                    m,
                    SpecState::AwaitPattern { subject, cases, next, env },
                    SpecAction::ParseNumber(text),
                )
            } else {
                skip
            },
        }
    }
}

/// The step of `sum` that adds number `next` to `total`: the host adds, one number at a time;
/// when none is left, `total` is the value.
pub open spec fn spec_sum_step(m: SpecMachine, numbers: Seq<Num>, next: nat, total: Num) -> (
    SpecMachine,
    SpecAction,
) {
    if next >= numbers.len() {
        give(m, SpecValue::Number(total))
    } else {
        ask(
            m,
            SpecState::AwaitSum { numbers, next },
            SpecAction::Arith { op: ArithOp::Add, left: total, right: numbers[next as int] },
        )
    }
}

/// Of the first `count` bindings, those that a module hands to who imports it: all but the
/// builtin functions.
pub open spec fn exports(bindings: Seq<(Seq<char>, SpecValue)>, count: nat) -> Seq<(Seq<char>, SpecValue)>
    decreases count,
{
    if count == 0 {
        Seq::empty()
    } else if bindings[count - 1].1 is BuiltinFunc {
        exports(bindings, (count - 1) as nat)
    } else {
        exports(bindings, (count - 1) as nat).push(bindings[count - 1])
    }
}

/// The path of the file of a module: in the evaluator's directory, under the module's name,
/// with the extension `.do`.
pub open spec fn path_of_module(current_dir: Seq<char>, module: Seq<char>) -> Seq<char> {
    current_dir + "/"@ + module + ".do"@
}

/// The program `frame`, which lies on `rest`, goes on with statement number `next`.
///
/// The expression of a statement is evaluated in the frame that the program builds up, and
/// for an import the text of the module is asked of the host. When no statement is left, a
/// program is over, and the frame it built is its outcome; a module is over, and what it
/// exports is bound to its name, as a record, in the program that imports it.
pub open spec fn spec_run_program(
    rest: SpecMachine,
    stmts: Seq<SpecStmt>,
    next: nat,
    env: SpecEnv,
    pending: Option<Seq<char>>,
    module: Option<Seq<char>>,
) -> (SpecMachine, SpecAction) {
    if next >= stmts.len() {
        match module {
            None => (
                SpecMachine { current_dir: rest.current_dir, stack: Seq::empty(), state: SpecState::Idle },
                SpecAction::Done(SpecOutcome::Env(env)),
            ),
            Some(name) => spec_imported(rest, name, env),
        }
    } else {
        match stmts[next as int] {
            SpecStmt::Expr(e) => begin(
                pushed(rest, SpecFrame::Program { stmts, next, env, pending: None, module }),
                e,
                env,
            ),
            SpecStmt::Let { name, val } => begin(
                pushed(rest, SpecFrame::Program { stmts, next, env, pending: Some(name), module }),
                val,
                env,
            ),
            SpecStmt::Import { module: name } => ask(
                pushed(rest, SpecFrame::Program { stmts, next, env, pending, module }),
                SpecState::AwaitImport { module: name },
                SpecAction::ReadFile(path_of_module(rest.current_dir, name)),
            ),
        }
    }
}

/// The step that goes on with the program on top of the stack.
pub open spec fn spec_run(m: SpecMachine) -> (SpecMachine, SpecAction) {
    if m.stack.len() == 0 {
        (m, SpecAction::Done(SpecOutcome::Nothing))
    } else {
        match m.stack.last() {
            SpecFrame::Program { stmts, next, env, pending, module } => spec_run_program(
                popped(m),
                stmts,
                next,
                env,
                pending,
                module,
            ),
            _ => fail(m, SpecEvalError::IOError("No program to run"@)),
        }
    }
}

/// A module is over: what it exports is bound to its name in the program that imports it,
/// which goes on with its next statement.
pub open spec fn spec_imported(m: SpecMachine, name: Seq<char>, env: SpecEnv) -> (SpecMachine, SpecAction) {
    if m.stack.len() == 0 {
        fail(m, SpecEvalError::IOError("Import outside of a program"@))
    } else {
        match m.stack.last() {
            SpecFrame::Program { stmts, next, env: outer, pending, module } => goto(
                pushed(
                    popped(m),
                    SpecFrame::Program {
                        stmts,
                        next: succ(next, stmts.len()),
                        env: bind(
                            outer,
                            name,
                            SpecValue::Record(exports(env.variables, env.variables.len())),
                        ),
                        pending: None,
                        module,
                    },
                ),
                SpecState::Run,
            ),
            _ => fail(m, SpecEvalError::IOError("Import outside of a program"@)),
        }
    }
}

/// The text of a module has come: it is read as a program, whose statements are executed in
/// a new frame inside that of the program that imports it.
pub open spec fn spec_import(m: SpecMachine, name: Seq<char>, text: Seq<char>) -> (SpecMachine, SpecAction) {
    match parse_program(tokens_from(text, 0), 0, Seq::empty()) {
        Err(e) => fail(
            m,
            SpecEvalError::IOError("Failed to parse module "@ + name + ": "@ + spec_parse_message(e)),
        ),
        Ok(stmts) => if m.stack.len() == 0 {
            fail(m, SpecEvalError::IOError("Import outside of a program"@))
        } else {
            match m.stack.last() {
                SpecFrame::Program { stmts: s, next, env, pending, module } => goto(
                    pushed(
                        m,
                        SpecFrame::Program {
                            stmts,
                            next: 0,
                            env: SpecEnv { variables: Seq::empty(), parent: Some(Box::new(env)) },
                            pending: None,
                            module: Some(name),
                        },
                    ),
                    SpecState::Run,
                ),
                _ => fail(m, SpecEvalError::IOError("Import outside of a program"@)),
            }
        },
    }
}

/// The step that takes the answer of the host, for which the machine waited in `state`.
/// An answer of another kind than the one asked for makes the evaluation fail.
pub open spec fn spec_receive(m: SpecMachine, state: SpecState, event: SpecEvent) -> (
    SpecMachine,
    SpecAction,
) {
    match (state, event) {
        (SpecState::AwaitLiteral, SpecEvent::Number(n)) => give(m, SpecValue::Number(n)),
        (SpecState::AwaitPattern { subject, cases, next, env }, SpecEvent::Number(n)) => if next
            < cases.len() && subject is Number && subject->Number_0.spec_equals(n) {
            begin(m, cases[next as int].body, env)
        } else {
            goto(m, SpecState::Scan { subject, cases, next: succ(next, cases.len()), env })
        },
        (SpecState::AwaitArith, SpecEvent::Number(n)) => give(m, SpecValue::Number(n)),
        (SpecState::AwaitSum { numbers, next }, SpecEvent::Number(n)) => goto(
            m,
            SpecState::Sum { numbers, next: succ(next, numbers.len()), total: n },
        ),
        (SpecState::AwaitInt, SpecEvent::Number(n)) => give(m, SpecValue::Number(n)),
        (SpecState::AwaitInt, SpecEvent::NotANumber) => wrong(m, "int: invalid number"@),
        (SpecState::AwaitStr, SpecEvent::Text(s)) => give(m, SpecValue::String(s)),
        (SpecState::AwaitPrint, SpecEvent::Printed) => give(m, SpecValue::Number(Num { bits: 0 })),
        (SpecState::AwaitRead, SpecEvent::FileContent(text)) => give(m, SpecValue::String(text)),
        (SpecState::AwaitRead, SpecEvent::FileError(message)) => fail(m, SpecEvalError::IOError(message)),
        (SpecState::AwaitImport { module }, SpecEvent::FileContent(text)) => spec_import(m, module, text),
        (SpecState::AwaitImport { module }, SpecEvent::FileError(message)) => fail(
            m,
            SpecEvalError::IOError("Failed to read module "@ + module + ": "@ + message),
        ),
        _ => fail(m, SpecEvalError::IOError("Unexpected answer from the host"@)),
    }
}

/// One step of the machine: what it does in its state, with the answer of the host where it
/// waited for one.
pub open spec fn spec_step(m: SpecMachine, event: SpecEvent) -> (SpecMachine, SpecAction) {
    match m.state {
        SpecState::Idle => (m, SpecAction::Done(SpecOutcome::Nothing)),
        SpecState::Run => spec_run(idle(m)),
        SpecState::Eval { expr, env } => spec_eval_expr(idle(m), expr, env),
        SpecState::Return { value } => spec_resume(idle(m), value),
        SpecState::Apply { func, args } => spec_call(idle(m), func, args),
        SpecState::Scan { subject, cases, next, env } => spec_scan(idle(m), subject, cases, next, env),
        SpecState::Sum { numbers, next, total } => spec_sum_step(idle(m), numbers, next, total),
        _ => spec_receive(idle(m), m.state, event),
    }
}

/// Steps of the machine, up to `budget` of them after the first, until one asks something
/// of the host or ends the evaluation.
pub open spec fn spec_steps(m: SpecMachine, event: SpecEvent, budget: nat) -> (SpecMachine, SpecAction)
    decreases budget,
{
    let (next, action) = spec_step(m, event);
    if action is Continue && budget > 0 {
        spec_steps(next, SpecEvent::Resume, (budget - 1) as nat)
    } else {
        (next, action)
    }
}

} // verus!
