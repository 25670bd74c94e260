use crate::ast::{
    exprs_view, fields_view, opt_view, stmts_view, Case, Expr, Pattern,
    SpecExpr, Stmt, AST,
};
use crate::eval::builtin::etc::{empty, len, not_empty};
use crate::eval::builtin::file::read_file;
use crate::eval::builtin::io::print;
use crate::eval::builtin::list::{append, filter, first, last, second, sum, tail, third};
use crate::eval::builtin::num::str;
use crate::eval::builtin::str::{split, to_number};
use crate::eval::env::{bind, put_binding, Env};
use crate::eval::error::{EvalError};
use crate::eval::eval_func::{apply, Applied};
use crate::eval::machine::{
    expr_view, frames_view, Action, Event, Frame, Outcome, SpecAction, SpecEvent, SpecFrame, SpecMachine,
    SpecOutcome, SpecState, State,
};
use crate::eval::ops::{access, binary, slice, unary, ArithOp, BinaryOp, Computed};
use crate::eval::semantics::{
    ask, begin, call, exports, fail, finish, finish_builtin, give, goto, idle, path_of_module, popped, pushed, spec_call, spec_computed, spec_eval_expr, spec_import,
    spec_imported, spec_invoke, spec_receive, spec_resume, spec_resume_args, spec_resume_callee,
    spec_resume_filtering, spec_resume_list, spec_resume_mapping, spec_resume_record, spec_resume_slice,
    spec_run, spec_run_program, spec_scan, spec_step, spec_steps,
    spec_sum_step, unbox, wrapped, wrong,
};
use crate::eval::value::{bindings_view, share, values_view, SpecValue, Value};
use crate::lexer::{same_text, tokenize};
use crate::number::Num;
use crate::parser::Parser;
use std::rc::Rc;
use vstd::prelude::*;

verus! {

/// The evaluator: a machine that evaluates a program step by step.
///
/// A step does a bounded piece of work and says what it asks of the host: arithmetic on
/// numbers, the reading and writing of decimal text, output, and the text of files. The host
/// carries it out and hands the answer to the next step. A program that never ends is a
/// sequence of steps that never ends, each of which does.
pub struct Evaluator {
    pub current_dir: String,
    stack: Vec<Frame>,
    state: State,
}

/// The frame that `env` becomes when `name` is bound to `value` in it.
fn bind_in(env: Rc<Env>, name: String, value: Value) -> (r: Rc<Env>)
    ensures
        (*r)@ == bind((*env)@, name@, value@),
{
    let mut owned = match Rc::try_unwrap(env) {
        Ok(e) => e,
        Err(shared) => (*shared).clone(),
    };
    owned.set(name, value);
    Rc::new(owned)
}

/// The frame that a handle stands for, as a value of its own.
fn owned_env(env: Rc<Env>) -> (r: Env)
    ensures
        r@ == (*env)@,
{
    match Rc::try_unwrap(env) {
        Ok(e) => e,
        Err(shared) => (*shared).clone(),
    }
}

/// What is in a box, if there is one.
fn unboxed(e: Option<Box<Expr>>) -> (r: Option<Expr>)
    ensures
        expr_view(r) == unbox(opt_view(e)),
{
    match e {
        Some(b) => Some(*b),
        None => None,
    }
}

/// A list with one value in it.
fn one(value: Value) -> (r: Vec<Value>)
    ensures
        values_view(r@) == seq![value@],
{
    let mut r: Vec<Value> = Vec::new();
    r.push(value);
    assert(values_view(r@) =~= seq![value@]);
    r
}

/// A list with nothing in it.
fn nothing() -> (r: Vec<Value>)
    ensures
        values_view(r@) == Seq::<SpecValue>::empty(),
{
    let r: Vec<Value> = Vec::new();
    assert(values_view(r@) =~= Seq::empty());
    r
}

/// `values` with one more at its end.
fn appended(values: Vec<Value>, value: Value) -> (r: Vec<Value>)
    ensures
        values_view(r@) == values_view(values@).push(value@),
        r.len() == values.len() + 1,
{
    let mut r = values;
    r.push(value);
    assert(values_view(r@) =~= values_view(values@).push(value@));
    r
}

/// A copy of statement number `i`.
fn statement_at(stmts: &Vec<Stmt>, i: usize) -> (r: Stmt)
    requires
        i < stmts.len(),
    ensures
        r@ == stmts_view(stmts@)[i as int],
{
    stmts[i].clone()
}

/// A copy of expression number `i`.
fn expr_at(exprs: &Vec<Expr>, i: usize) -> (r: Expr)
    requires
        i < exprs.len(),
    ensures
        r@ == exprs_view(exprs@)[i as int],
{
    assert(exprs_view(exprs@)[i as int] == exprs@[i as int]@);
    exprs[i].clone()
}

/// A copy of the expression of field number `i`.
fn field_at(fields: &Vec<(String, Expr)>, i: usize) -> (r: Expr)
    requires
        i < fields.len(),
    ensures
        r@ == fields_view(fields@)[i as int].1,
{
    assert(fields_view(fields@)[i as int] == (fields@[i as int].0@, fields@[i as int].1@));
    fields[i].1.clone()
}

/// A copy of value number `i`.
fn value_at(values: &Vec<Value>, i: usize) -> (r: Value)
    requires
        i < values.len(),
    ensures
        r@ == values_view(values@)[i as int],
{
    assert(values_view(values@)[i as int] == values@[i as int]@);
    values[i].clone()
}

/// A record with no field.
fn no_fields() -> (r: Vec<(String, Value)>)
    ensures
        bindings_view(r@) == Seq::<(Seq<char>, SpecValue)>::empty(),
{
    let r: Vec<(String, Value)> = Vec::new();
    assert(bindings_view(r@) =~= Seq::empty());
    r
}

/// Of the bindings of a module, those that it hands to who imports it.
fn exported(bindings: &Vec<(String, Value)>) -> (r: Vec<(String, Value)>)
    ensures
        bindings_view(r@) == exports(bindings_view(bindings@), bindings.len() as nat),
{
    let mut out: Vec<(String, Value)> = Vec::new();
    assert(bindings_view(out@) =~= Seq::empty());
    let mut i: usize = 0;
    while i < bindings.len()
        invariant
            i <= bindings.len(),
            bindings_view(out@) == exports(bindings_view(bindings@), i as nat),
        decreases bindings.len() - i,
    {
        let ghost before = bindings_view(out@);
        assert(bindings_view(bindings@)[i as int] == (bindings@[i as int].0@, bindings@[i as int].1@));
        match &bindings[i].1 {
            Value::BuiltinFunc { .. } => {},
            other => {
                let value = other.clone();
                out.push((bindings[i].0.clone(), value));
                assert(bindings_view(out@) =~= before.push(bindings_view(bindings@)[i as int]));
            },
        }
        i += 1;
    }
    out
}

impl Evaluator {
    /// The evaluator as a mathematical value.
    pub closed spec fn view(&self) -> SpecMachine {
        SpecMachine { current_dir: self.current_dir@, stack: frames_view(self.stack@), state: self.state@ }
    }

    /// An evaluator that reads modules from `current_dir`, and has nothing to do yet.
    pub fn new(current_dir: String) -> (evaluator: Evaluator)
        ensures
            evaluator@ == (SpecMachine {
                current_dir: current_dir@,
                stack: Seq::empty(),
                state: SpecState::Idle,
            }),
    {
        let stack: Vec<Frame> = Vec::new();
        assert(frames_view(stack@) =~= Seq::empty());
        Evaluator { current_dir, stack, state: State::Idle }
    }

    /// Sets the evaluator to execute the statements of `ast`, in order, in the frame `env`,
    /// in place of what it did before. The steps that follow do it.
    pub fn eval(&mut self, ast: AST, env: Env)
        ensures
            final(self)@ == (SpecMachine {
                current_dir: old(self)@.current_dir,
                stack: seq![
                    SpecFrame::Program { stmts: ast@, next: 0, env: env@, pending: None, module: None },
                ],
                state: SpecState::Run,
            }),
    {
        let mut stack: Vec<Frame> = Vec::new();
        stack.push(
            Frame::Program { stmts: ast.stmts, next: 0, env: Rc::new(env), pending: None, module: None },
        );
        assert(frames_view(stack@) =~= seq![
            SpecFrame::Program { stmts: ast@, next: 0, env: env@, pending: None, module: None },
        ]);
        self.stack = stack;
        self.state = State::Run;
    }

    /// Sets the evaluator to execute the one statement `stmt` in the frame `env`, in place of
    /// what it did before. The steps that follow do it.
    pub fn eval_stmt(&mut self, stmt: Stmt, env: Env)
        ensures
            final(self)@ == (SpecMachine {
                current_dir: old(self)@.current_dir,
                stack: seq![
                    SpecFrame::Program { stmts: seq![stmt@], next: 0, env: env@, pending: None, module: None },
                ],
                state: SpecState::Run,
            }),
    {
        let mut stmts: Vec<Stmt> = Vec::new();
        stmts.push(stmt);
        assert(stmts_view(stmts@) =~= seq![stmt@]);
        self.eval(AST { stmts }, env);
    }

    /// Sets the evaluator to evaluate `expr` in the frame `env`, in place of what it did
    /// before. The steps that follow do it.
    pub fn eval_expr(&mut self, expr: Expr, env: Env)
        ensures
            final(self)@ == (SpecMachine {
                current_dir: old(self)@.current_dir,
                stack: Seq::empty(),
                state: SpecState::Eval { expr: expr@, env: env@ },
            }),
    {
        let stack: Vec<Frame> = Vec::new();
        assert(frames_view(stack@) =~= Seq::empty());
        self.stack = stack;
        self.state = State::Eval { expr, env: Rc::new(env) };
    }

    fn push(&mut self, frame: Frame)
        ensures
            final(self)@ == pushed(old(self)@, frame@),
    {
        self.stack.push(frame);
        assert(frames_view(self.stack@) =~= frames_view(old(self).stack@).push(frame@));
    }

    fn pop(&mut self) -> (frame: Option<Frame>)
        ensures
            match frame {
                Some(f) => old(self)@.stack.len() > 0 && f@ == old(self)@.stack.last() && final(self)@
                    == popped(old(self)@),
                None => old(self)@.stack.len() == 0 && final(self)@ == old(self)@,
            },
    {
        let frame = self.stack.pop();
        proof {
            if frame is Some {
                assert(frames_view(self.stack@) =~= frames_view(old(self).stack@).drop_last());
            }
        }
        frame
    }

    fn goto(&mut self, state: State) -> (action: Action)
        ensures
            (final(self)@, action@) == goto(old(self)@, state@),
    {
        self.state = state;
        Action::Continue
    }

    fn give(&mut self, value: Value) -> (action: Action)
        ensures
            (final(self)@, action@) == give(old(self)@, value@),
    {
        self.goto(State::Return { value })
    }

    fn begin(&mut self, expr: Expr, env: Rc<Env>) -> (action: Action)
        ensures
            (final(self)@, action@) == begin(old(self)@, expr@, (*env)@),
    {
        self.goto(State::Eval { expr, env })
    }

    fn call(&mut self, func: Value, args: Vec<Value>) -> (action: Action)
        ensures
            (final(self)@, action@) == call(old(self)@, func@, values_view(args@)),
    {
        self.goto(State::Apply { func, args })
    }

    fn ask(&mut self, state: State, action: Action) -> (asked: Action)
        ensures
            (final(self)@, asked@) == ask(old(self)@, state@, action@),
    {
        self.state = state;
        action
    }

    fn fail(&mut self, e: EvalError) -> (action: Action)
        ensures
            (final(self)@, action@) == fail(old(self)@, e@),
    {
        let ghost frames = frames_view(self.stack@);
        let mut error = e;
        let mut i: usize = self.stack.len();
        while i > 0
            invariant
                i <= self.stack.len(),
                frames == frames_view(self.stack@),
                wrapped(frames, i as nat, error@) == wrapped(frames, frames.len(), e@),
            decreases i,
        {
            i -= 1;
            assert(frames[i as int] == self.stack@[i as int]@);
            if let Frame::Program { module: Some(name), .. } = &self.stack[i] {
                let mut message = String::from_str("Failed to evaluate module ");
                message.append(name.as_str());
                message.append(": ");
                message.append(error.message().as_str());
                error = EvalError::IOError(message);
            }
        }
        let env = if self.stack.len() > 0 {
            assert(frames[0] == self.stack@[0]@);
            match &self.stack[0] {
                Frame::Program { env, .. } => Some((**env).clone()),
                _ => None,
            }
        } else {
            None
        };
        let stack: Vec<Frame> = Vec::new();
        assert(frames_view(stack@) =~= Seq::empty());
        self.stack = stack;
        self.state = State::Idle;
        Action::Failed { error, env }
    }

    fn wrong(&mut self, context: String) -> (action: Action)
        ensures
            (final(self)@, action@) == wrong(old(self)@, context@),
    {
        self.fail(EvalError::TypeMismatch(context))
    }

    fn finish(&mut self, r: Result<Value, EvalError>) -> (action: Action)
        ensures
            (final(self)@, action@) == finish(
                old(self)@,
                match r {
                    Ok(v) => Ok(v@),
                    Err(e) => Err(e@),
                },
            ),
    {
        match r {
            Ok(v) => self.give(v),
            Err(e) => self.fail(e),
        }
    }

    fn finish_builtin(&mut self, r: Result<Value, String>) -> (action: Action)
        ensures
            (final(self)@, action@) == finish_builtin(
                old(self)@,
                match r {
                    Ok(v) => Ok(v@),
                    Err(e) => Err(e@),
                },
            ),
    {
        match r {
            Ok(v) => self.give(v),
            Err(message) => self.wrong(message),
        }
    }

    fn computed(&mut self, c: Computed) -> (action: Action)
        ensures
            (final(self)@, action@) == spec_computed(old(self)@, c@),
    {
        match c {
            Computed::Value(v) => self.give(v),
            Computed::Arith { op, left, right } => self.ask(
                State::AwaitArith,
                Action::Arith { op, left, right },
            ),
            Computed::Apply { func, args } => self.call(func, args),
            Computed::Error(e) => self.fail(e),
        }
    }

    fn operands(&mut self, op: BinaryOp, left: Expr, right: Expr, env: Rc<Env>) -> (action: Action)
        ensures
            (final(self)@, action@) == crate::eval::semantics::operands(
                old(self)@,
                op,
                left@,
                right@,
                (*env)@,
            ),
    {
        self.push(Frame::Left { op, right, env: share(&env) });
        self.begin(left, env)
    }

    /// The step that evaluates `expr` in `env`.
    fn descend(&mut self, expr: Expr, env: Rc<Env>) -> (action: Action)
        ensures
            (final(self)@, action@) == spec_eval_expr(old(self)@, expr@, (*env)@),
    {
        match expr {
            Expr::Number(text) => self.ask(State::AwaitLiteral, Action::ParseNumber(text)),
            Expr::String(s) => self.give(Value::String(s)),
            Expr::Boolean(b) => self.give(Value::Boolean(b)),
            Expr::Identifier(name) => self.descend_name(name, env),
            Expr::Func { params, body } => self.give(Value::Func { params, body, env }),
            Expr::If { cond, then, else_ } => {
                self.push(Frame::If { then: *then, else_: *else_, env: share(&env) });
                self.begin(*cond, env)
            },
            Expr::Match { cond, cases } => {
                self.push(Frame::Match { cases, env: share(&env) });
                self.begin(*cond, env)
            },
            Expr::List(items) => self.descend_list(items, env),
            Expr::Record(fields) => self.descend_record(fields, env),
            Expr::Pipe { left, right } => self.operands(BinaryOp::Pipe, *left, *right, env),
            Expr::Logic { left, op, right } => self.operands(BinaryOp::Logic(op), *left, *right, env),
            Expr::Comp { left, op, right } => self.operands(BinaryOp::Comp(op), *left, *right, env),
            Expr::Range { start, end } => self.operands(BinaryOp::Range, *start, *end, env),
            Expr::Term { left, op, right } => self.operands(BinaryOp::Term(op), *left, *right, env),
            Expr::Factor { left, op, right } => self.operands(BinaryOp::Factor(op), *left, *right, env),
            Expr::Index { list, index } => self.operands(BinaryOp::Index, *list, *index, env),
            Expr::Unary { op, right } => {
                self.push(Frame::Unary { op });
                self.begin(*right, env)
            },
            Expr::Slice { list, start, end } => {
                self.push(Frame::SliceList { start: unboxed(start), end: unboxed(end), env: share(&env) });
                self.begin(*list, env)
            },
            Expr::Access { record, field } => {
                self.push(Frame::Access { field });
                self.begin(*record, env)
            },
            Expr::Call { name, args } => {
                self.push(Frame::Callee { args, env: share(&env) });
                self.begin(*name, env)
            },
        }
    }

    fn descend_name(&mut self, name: String, env: Rc<Env>) -> (action: Action)
        ensures
            (final(self)@, action@) == spec_eval_expr(old(self)@, SpecExpr::Identifier(name@), (*env)@),
    {
        let found = match env.get(name.as_str()) {
            Some(v) => Some(v.clone()),
            None => None,
        };
        match found {
            Some(v) => self.give(v),
            None => self.fail(EvalError::UndefinedVariable(name)),
        }
    }

    fn descend_list(&mut self, items: Vec<Expr>, env: Rc<Env>) -> (action: Action)
        ensures
            (final(self)@, action@) == spec_eval_expr(old(self)@, SpecExpr::List(exprs_view(items@)), (*env)@),
    {
        if items.len() == 0 {
            self.give(Value::List(nothing()))
        } else {
            let head = expr_at(&items, 0);
            self.push(Frame::List { items, done: nothing(), env: share(&env) });
            self.begin(head, env)
        }
    }

    fn descend_record(&mut self, fields: Vec<(String, Expr)>, env: Rc<Env>) -> (action: Action)
        ensures
            (final(self)@, action@) == spec_eval_expr(
                old(self)@,
                SpecExpr::Record(fields_view(fields@)),
                (*env)@,
            ),
    {
        if fields.len() == 0 {
            self.give(Value::Record(no_fields()))
        } else {
            let head = field_at(&fields, 0);
            self.push(Frame::Record { fields, next: 0, done: no_fields(), env: share(&env) });
            self.begin(head, env)
        }
    }

    /// The step that hands `value` to the frame on top of the stack.
    fn resume(&mut self, value: Value) -> (action: Action)
        ensures
            (final(self)@, action@) == spec_resume(old(self)@, value@),
    {
        let frame = match self.pop() {
            Some(f) => f,
            None => {
                return Action::Done(Outcome::Value(value));
            },
        };
        proof {
            lemma_popped_pushed(old(self)@);
        }
        match frame {
            Frame::Program { stmts, next, env, pending, module } => {
                let env = match pending {
                    Some(name) => bind_in(env, name, value),
                    None => env,
                };
                let next = if next < stmts.len() {
                    next + 1
                } else {
                    next
                };
                self.push(Frame::Program { stmts, next, env, pending: None, module });
                self.goto(State::Run)
            },
            Frame::If { then, else_, env } => match value {
                Value::Boolean(true) => self.begin(then, env),
                Value::Boolean(false) => self.begin(else_, env),
                _ => self.wrong(String::from_str("Condition must be a boolean")),
            },
            Frame::Match { cases, env } => self.goto(State::Scan { subject: value, cases, next: 0, env }),
            Frame::List { items, done, env } => self.resume_list(items, done, env, value),
            Frame::Record { fields, next, done, env } => self.resume_record(fields, next, done, env, value),
            Frame::Left { op, right, env } => {
                self.push(Frame::Right { op, left: value });
                self.begin(right, env)
            },
            Frame::Right { op, left } => self.computed(binary(op, left, value)),
            Frame::Unary { op } => self.finish(unary(op, value)),
            Frame::SliceList { start, end, env } => self.resume_slice(start, end, env, value),
            Frame::SliceStart { list, end, env } => match end {
                Some(e) => {
                    self.push(Frame::SliceEnd { list, start: Some(value) });
                    self.begin(e, env)
                },
                None => self.finish(slice(list, Some(value), None)),
            },
            Frame::SliceEnd { list, start } => self.finish(slice(list, start, Some(value))),
            Frame::Access { field } => self.finish(access(value, &field)),
            Frame::Callee { args, env } => self.resume_callee(args, env, value),
            Frame::Args { callee, args, done, env } => self.resume_args(callee, args, done, env, value),
            Frame::Mapping { func, items, done } => self.resume_mapping(func, items, done, value),
            Frame::Filtering { func, items, next, kept } => self.resume_filtering(
                func,
                items,
                next,
                kept,
                value,
            ),
        }
    }

    fn resume_list(&mut self, items: Vec<Expr>, done: Vec<Value>, env: Rc<Env>, value: Value) -> (action:
        Action)
        ensures
            (final(self)@, action@) == spec_resume_list(old(self)@, exprs_view(items@), values_view(done@), (*env)@, value@),
    {
        let done = appended(done, value);
        if done.len() >= items.len() {
            self.give(Value::List(done))
        } else {
            let item = expr_at(&items, done.len());
            self.push(Frame::List { items, done, env: share(&env) });
            self.begin(item, env)
        }
    }

    fn resume_record(
        &mut self,
        fields: Vec<(String, Expr)>,
        next: usize,
        done: Vec<(String, Value)>,
        env: Rc<Env>,
        value: Value,
    ) -> (action: Action)
        ensures
            (final(self)@, action@) == spec_resume_record(old(self)@, fields_view(fields@), next as nat, bindings_view(done@), (*env)@, value@),
    {
        let mut done = done;
        if next >= fields.len() {
            self.give(Value::Record(done))
        } else {
            assert(fields_view(fields@)[next as int] == (fields@[next as int].0@, fields@[next as int].1@));
            put_binding(&mut done, fields[next].0.clone(), value);
            if next + 1 >= fields.len() {
                self.give(Value::Record(done))
            } else {
                let field = field_at(&fields, next + 1);
                self.push(Frame::Record { fields, next: next + 1, done, env: share(&env) });
                self.begin(field, env)
            }
        }
    }

    fn resume_slice(&mut self, start: Option<Expr>, end: Option<Expr>, env: Rc<Env>, value: Value) -> (action:
        Action)
        ensures
            (final(self)@, action@) == spec_resume_slice(old(self)@, expr_view(start), expr_view(end), (*env)@, value@),
    {
        let sliceable = match &value {
            Value::List(_) => true,
            Value::String(_) => true,
            _ => false,
        };
        if !sliceable {
            return self.wrong(String::from_str("Slicing requires a list"));
        }
        match start {
            Some(e) => {
                self.push(Frame::SliceStart { list: value, end, env: share(&env) });
                self.begin(e, env)
            },
            None => match end {
                Some(e) => {
                    self.push(Frame::SliceEnd { list: value, start: None });
                    self.begin(e, env)
                },
                None => self.finish(slice(value, None, None)),
            },
        }
    }

    fn resume_callee(&mut self, args: Vec<Expr>, env: Rc<Env>, value: Value) -> (action: Action)
        ensures
            (final(self)@, action@) == spec_resume_callee(old(self)@, exprs_view(args@), (*env)@, value@),
    {
        let arity = match &value {
            Value::Func { params, .. } => Some(params.len()),
            Value::BuiltinFunc { args: given, .. } => Some(given.length),
            _ => None,
        };
        match arity {
            None => self.wrong(String::from_str("Function call requires a function")),
            Some(n) => {
                if args.len() > n {
                    self.fail(EvalError::ArityMismatch(n, args.len()))
                } else if args.len() == 0 {
                    self.call(value, nothing())
                } else {
                    let head = expr_at(&args, 0);
                    self.push(Frame::Args { callee: value, args, done: nothing(), env: share(&env) });
                    self.begin(head, env)
                }
            },
        }
    }

    fn resume_args(
        &mut self,
        callee: Value,
        args: Vec<Expr>,
        done: Vec<Value>,
        env: Rc<Env>,
        value: Value,
    ) -> (action: Action)
        ensures
            (final(self)@, action@) == spec_resume_args(old(self)@, callee@, exprs_view(args@), values_view(done@), (*env)@, value@),
    {
        let done = appended(done, value);
        if done.len() >= args.len() {
            self.call(callee, done)
        } else {
            let arg = expr_at(&args, done.len());
            self.push(Frame::Args { callee, args, done, env: share(&env) });
            self.begin(arg, env)
        }
    }

    fn resume_mapping(&mut self, func: Value, items: Vec<Value>, done: Vec<Value>, value: Value) -> (action:
        Action)
        ensures
            (final(self)@, action@) == spec_resume_mapping(old(self)@, func@, values_view(items@), values_view(done@), value@),
    {
        let done = appended(done, value);
        if done.len() >= items.len() {
            self.give(Value::List(done))
        } else {
            let item = value_at(&items, done.len());
            let again = func.clone();
            self.push(Frame::Mapping { func, items, done });
            self.call(again, one(item))
        }
    }

    fn resume_filtering(
        &mut self,
        func: Value,
        items: Vec<Value>,
        next: usize,
        kept: Vec<Value>,
        value: Value,
    ) -> (action: Action)
        ensures
            (final(self)@, action@) == spec_resume_filtering(old(self)@, func@, values_view(items@), next as nat, values_view(kept@), value@),
    {
        if next >= items.len() {
            return self.give(Value::List(kept));
        }
        assert(values_view(items@)[next as int] == items@[next as int]@);
        let stays = match value {
            Value::Boolean(true) => true,
            _ => false,
        };
        let kept = if stays {
            let item = items[next].clone();
            appended(kept, item)
        } else {
            kept
        };
        if next + 1 >= items.len() {
            self.give(Value::List(kept))
        } else {
            let item = value_at(&items, next + 1);
            let again = func.clone();
            self.push(Frame::Filtering { func, items, next: next + 1, kept });
            self.call(again, one(item))
        }
    }

    /// The step that invokes the builtin function `name` on `args`.
    fn invoke(&mut self, name: String, args: Vec<Value>) -> (action: Action)
        ensures
            (final(self)@, action@) == spec_invoke(old(self)@, name@, values_view(args@)),
    {
        if same_text(&name, "print") {
            match print(args) {
                Ok(parts) => self.ask(State::AwaitPrint, Action::Print { parts, newline: false }),
                Err(message) => self.wrong(message),
            }
        } else if same_text(&name, "println") {
            match crate::eval::builtin::io::println(args) {
                Ok(parts) => self.ask(State::AwaitPrint, Action::Print { parts, newline: true }),
                Err(message) => self.wrong(message),
            }
        } else if same_text(&name, "read_file") {
            match read_file(args) {
                Ok(path) => self.ask(State::AwaitRead, Action::ReadFile(path)),
                Err(message) => self.wrong(message),
            }
        } else if same_text(&name, "map") {
            match crate::eval::builtin::list::map(args) {
                Ok((func, items)) => {
                    if items.len() == 0 {
                        self.give(Value::List(nothing()))
                    } else {
                        let item = value_at(&items, 0);
                        let again = func.clone();
                        self.push(Frame::Mapping { func, items, done: nothing() });
                        self.call(again, one(item))
                    }
                },
                Err(message) => self.wrong(message),
            }
        } else if same_text(&name, "filter") {
            match filter(args) {
                Ok((func, items)) => {
                    if items.len() == 0 {
                        self.give(Value::List(nothing()))
                    } else {
                        let item = value_at(&items, 0);
                        let again = func.clone();
                        self.push(Frame::Filtering { func, items, next: 0, kept: nothing() });
                        self.call(again, one(item))
                    }
                },
                Err(message) => self.wrong(message),
            }
        } else if same_text(&name, "sum") {
            match sum(args) {
                Ok(numbers) => self.goto(State::Sum { numbers, next: 0, total: Num::zero() }),
                Err(message) => self.wrong(message),
            }
        } else if same_text(&name, "int") {
            match to_number(args) {
                Ok(text) => self.ask(State::AwaitInt, Action::ParseNumber(text)),
                Err(message) => self.wrong(message),
            }
        } else if same_text(&name, "str") {
            match str(args) {
                Ok(n) => self.ask(State::AwaitStr, Action::FormatNumber(n)),
                Err(message) => self.wrong(message),
            }
        } else {
            self.invoke_pure(name, args)
        }
    }

    /// The step that invokes a builtin function that asks nothing of the host.
    fn invoke_pure(&mut self, name: String, args: Vec<Value>) -> (action: Action)
        requires
            name@ != "print"@,
            name@ != "println"@,
            name@ != "read_file"@,
            name@ != "map"@,
            name@ != "filter"@,
            name@ != "sum"@,
            name@ != "int"@,
            name@ != "str"@,
        ensures
            (final(self)@, action@) == spec_invoke(old(self)@, name@, values_view(args@)),
    {
        if same_text(&name, "append") {
            self.finish_builtin(append(args))
        } else if same_text(&name, "first") {
            self.finish_builtin(first(args))
        } else if same_text(&name, "second") {
            self.finish_builtin(second(args))
        } else if same_text(&name, "third") {
            self.finish_builtin(third(args))
        } else if same_text(&name, "tail") {
            self.finish_builtin(tail(args))
        } else if same_text(&name, "last") {
            self.finish_builtin(last(args))
        } else if same_text(&name, "split") {
            self.finish_builtin(split(args))
        } else if same_text(&name, "len") {
            self.finish_builtin(len(args))
        } else if same_text(&name, "empty") {
            self.finish_builtin(empty(args))
        } else if same_text(&name, "not_empty") {
            self.finish_builtin(not_empty(args))
        } else {
            self.fail(EvalError::UndefinedVariable(name))
        }
    }

    /// The step that applies `func` to `args`.
    fn apply_step(&mut self, func: Value, args: Vec<Value>) -> (action: Action)
        ensures
            (final(self)@, action@) == spec_call(old(self)@, func@, values_view(args@)),
    {
        match apply(func, args) {
            Applied::Enter { body, env } => self.begin(body, Rc::new(env)),
            Applied::Value(v) => self.give(v),
            Applied::Invoke { name, args } => self.invoke(name, args),
            Applied::Error(e) => self.fail(e),
        }
    }

    /// The step that tries case number `next` of a `match` on `subject`.
    fn scan(&mut self, subject: Value, cases: Vec<Case>, next: usize, env: Rc<Env>) -> (action: Action)
        ensures
            (final(self)@, action@) == spec_scan(
                old(self)@,
                subject@,
                crate::ast::cases_view(cases@),
                next as nat,
                (*env)@,
            ),
    {
        if next >= cases.len() {
            return self.fail(EvalError::PatternMatchExhausted);
        }
        assert(crate::ast::cases_view(cases@)[next as int] == cases@[next as int]@);
        let matched = match (&cases[next].pattern, &subject) {
            (Pattern::Wildcard, _) => Some(true),
            (Pattern::Boolean(b), Value::Boolean(v)) => Some(*b == *v),
            (Pattern::Boolean(_), _) => Some(false),
            (Pattern::String(s), Value::String(v)) => Some(*s == *v),
            (Pattern::String(_), _) => Some(false),
            (Pattern::Number(_), Value::Number(_)) => None,
            (Pattern::Number(_), _) => Some(false),
        };
        match matched {
            Some(true) => {
                let body = cases[next].body.clone();
                self.begin(body, env)
            },
            Some(false) => self.goto(State::Scan { subject, cases, next: next + 1, env }),
            None => {
                let text = match &cases[next].pattern {
                    Pattern::Number(text) => text.clone(),
                    _ => String::new(),
                };
                self.ask(State::AwaitPattern { subject, cases, next, env }, Action::ParseNumber(text))
            },
        }
    }

    /// The step of `sum` that adds number `next` to `total`.
    fn sum_step(&mut self, numbers: Vec<Num>, next: usize, total: Num) -> (action: Action)
        ensures
            (final(self)@, action@) == spec_sum_step(old(self)@, numbers@, next as nat, total),
    {
        if next >= numbers.len() {
            self.give(Value::Number(total))
        } else {
            let right = numbers[next];
            self.ask(State::AwaitSum { numbers, next }, Action::Arith { op: ArithOp::Add, left: total, right })
        }
    }

    /// The step that goes on with the program on top of the stack.
    fn run(&mut self) -> (action: Action)
        ensures
            (final(self)@, action@) == spec_run(old(self)@),
    {
        let frame = match self.pop() {
            Some(f) => f,
            None => {
                return Action::Done(Outcome::Nothing);
            },
        };
        proof {
            lemma_popped_pushed(old(self)@);
        }
        match frame {
            Frame::Program { stmts, next, env, pending, module } => self.run_program(
                stmts,
                next,
                env,
                pending,
                module,
            ),
            other => {
                self.push(other);
                self.fail(EvalError::IOError(String::from_str("No program to run")))
            },
        }
    }

    /// The path of the file of a module.
    fn path_of(&self, name: &String) -> (path: String)
        ensures
            path@ == path_of_module(self@.current_dir, name@),
    {
        let mut path = self.current_dir.clone();
        path.append("/");
        path.append(name.as_str());
        path.append(".do");
        path
    }

    /// A program or a module is over.
    fn end_program(&mut self, env: Rc<Env>, module: Option<String>) -> (action: Action)
        ensures
            (final(self)@, action@) == match crate::eval::machine::text_view(module) {
                None => (
                    SpecMachine {
                        current_dir: old(self)@.current_dir,
                        stack: Seq::empty(),
                        state: SpecState::Idle,
                    },
                    SpecAction::Done(SpecOutcome::Env((*env)@)),
                ),
                Some(name) => spec_imported(old(self)@, name, (*env)@),
            },
    {
        match module {
            None => {
                let stack: Vec<Frame> = Vec::new();
                assert(frames_view(stack@) =~= Seq::empty());
                self.stack = stack;
                self.state = State::Idle;
                Action::Done(Outcome::Env(owned_env(env)))
            },
            Some(name) => self.imported(name, env),
        }
    }

    /// A program goes on with statement number `next`.
    fn run_program(
        &mut self,
        stmts: Vec<Stmt>,
        next: usize,
        env: Rc<Env>,
        pending: Option<String>,
        module: Option<String>,
    ) -> (action: Action)
        ensures
            (final(self)@, action@) == spec_run_program(
                old(self)@,
                stmts_view(stmts@),
                next as nat,
                (*env)@,
                crate::eval::machine::text_view(pending),
                crate::eval::machine::text_view(module),
            ),
    {
        if next >= stmts.len() {
            return self.end_program(env, module);
        }
        let stmt = statement_at(&stmts, next);
        match stmt {
            Stmt::Expr(e) => {
                self.push(Frame::Program { stmts, next, env: share(&env), pending: None, module });
                self.begin(e, env)
            },
            Stmt::Let { name, val } => {
                self.push(Frame::Program { stmts, next, env: share(&env), pending: Some(name), module });
                self.begin(val, env)
            },
            Stmt::Import { module: name } => {
                let path = self.path_of(&name);
                self.push(Frame::Program { stmts, next, env, pending, module });
                self.ask(State::AwaitImport { module: name }, Action::ReadFile(path))
            },
        }
    }

    /// A module is over: what it exports is bound to its name in the program that imports it.
    fn imported(&mut self, name: String, env: Rc<Env>) -> (action: Action)
        ensures
            (final(self)@, action@) == spec_imported(old(self)@, name@, (*env)@),
    {
        let frame = match self.pop() {
            Some(f) => f,
            None => {
                return self.fail(EvalError::IOError(String::from_str("Import outside of a program")));
            },
        };
        proof {
            lemma_popped_pushed(old(self)@);
        }
        match frame {
            Frame::Program { stmts, next, env: outer, pending, module } => {
                let record = Value::Record(exported(&env.variables));
                let outer = bind_in(outer, name, record);
                let next = if next < stmts.len() {
                    next + 1
                } else {
                    next
                };
                self.push(Frame::Program { stmts, next, env: outer, pending: None, module });
                self.goto(State::Run)
            },
            other => {
                self.push(other);
                self.fail(EvalError::IOError(String::from_str("Import outside of a program")))
            },
        }
    }

    /// The text of a module has come: it is read as a program and executed in a new frame.
    fn import(&mut self, name: String, text: String) -> (action: Action)
        ensures
            (final(self)@, action@) == spec_import(old(self)@, name@, text@),
    {
        let tokens = tokenize(text.as_str());
        let mut parser = Parser::new(tokens);
        match parser.parse() {
            Err(e) => {
                let mut message = String::from_str("Failed to parse module ");
                message.append(name.as_str());
                message.append(": ");
                message.append(e.message().as_str());
                self.fail(EvalError::IOError(message))
            },
            Ok(ast) => {
                if self.stack.len() == 0 {
                    return self.fail(EvalError::IOError(String::from_str("Import outside of a program")));
                }
                assert(frames_view(self.stack@).last() == self.stack@[self.stack.len() - 1]@);
                let parent = match &self.stack[self.stack.len() - 1] {
                    Frame::Program { env, .. } => Some(share(env)),
                    _ => None,
                };
                match parent {
                    Some(p) => {
                        let child = Env::new(Some(p));
                        self.push(
                            Frame::Program {
                                stmts: ast.stmts,
                                next: 0,
                                env: Rc::new(child),
                                pending: None,
                                module: Some(name),
                            },
                        );
                        self.goto(State::Run)
                    },
                    None => self.fail(EvalError::IOError(String::from_str("Import outside of a program"))),
                }
            },
        }
    }

    /// The step that takes the answer of the host, for which the machine waited in `state`.
    fn receive(&mut self, state: State, event: Event) -> (action: Action)
        ensures
            (final(self)@, action@) == spec_receive(old(self)@, state@, event@),
    {
        match (state, event) {
            (State::AwaitLiteral, Event::Number(n)) => self.give(Value::Number(n)),
            (State::AwaitPattern { subject, cases, next, env }, Event::Number(n)) => {
                let equal = match &subject {
                    Value::Number(s) => s.equals(n),
                    _ => false,
                };
                if next < cases.len() && equal {
                    assert(crate::ast::cases_view(cases@)[next as int] == cases@[next as int]@);
                    let body = cases[next].body.clone();
                    self.begin(body, env)
                } else {
                    let next = if next < cases.len() {
                        next + 1
                    } else {
                        next
                    };
                    self.goto(State::Scan { subject, cases, next, env })
                }
            },
            (State::AwaitArith, Event::Number(n)) => self.give(Value::Number(n)),
            (State::AwaitSum { numbers, next }, Event::Number(n)) => {
                let next = if next < numbers.len() {
                    next + 1
                } else {
                    next
                };
                self.goto(State::Sum { numbers, next, total: n })
            },
            (State::AwaitInt, Event::Number(n)) => self.give(Value::Number(n)),
            (State::AwaitInt, Event::NotANumber) => self.wrong(String::from_str("int: invalid number")),
            (State::AwaitStr, Event::Text(s)) => self.give(Value::String(s)),
            (State::AwaitPrint, Event::Printed) => self.give(Value::Number(Num::zero())),
            (State::AwaitRead, Event::FileContent(text)) => self.give(Value::String(text)),
            (State::AwaitRead, Event::FileError(message)) => self.fail(EvalError::IOError(message)),
            (State::AwaitImport { module }, Event::FileContent(text)) => self.import(module, text),
            (State::AwaitImport { module }, Event::FileError(reason)) => {
                let mut message = String::from_str("Failed to read module ");
                message.append(module.as_str());
                message.append(": ");
                message.append(reason.as_str());
                self.fail(EvalError::IOError(message))
            },
            _ => self.fail(EvalError::IOError(String::from_str("Unexpected answer from the host"))),
        }
    }

    /// One step of the evaluation. `event` is the answer to what the step before asked of the
    /// host; where it asked nothing, the event is not looked at.
    ///
    /// The result says what is asked of the host now: [`Action::Continue`] nothing, and
    /// [`Action::Done`] and [`Action::Failed`] that the evaluation is over.
    pub fn step(&mut self, event: Event) -> (action: Action)
        ensures
            (final(self)@, action@) == spec_step(old(self)@, event@),
    {
        let mut state = State::Idle;
        std::mem::swap(&mut self.state, &mut state);
        assert(self@ == idle(old(self)@));
        match state {
            State::Idle => Action::Done(Outcome::Nothing),
            State::Run => self.run(),
            State::Eval { expr, env } => self.descend(expr, env),
            State::Return { value } => self.resume(value),
            State::Apply { func, args } => self.apply_step(func, args),
            State::Scan { subject, cases, next, env } => self.scan(subject, cases, next, env),
            State::Sum { numbers, next, total } => self.sum_step(numbers, next, total),
            other => self.receive(other, event),
        }
    }

    /// Steps of the evaluation, until one asks something of the host or ends the evaluation,
    /// and at most `budget` steps after the first. `event` is for the first step. Where the
    /// budget runs out the result is [`Action::Continue`], and the evaluation can go on.
    pub fn resume_with(&mut self, event: Event, budget: usize) -> (action: Action)
        ensures
            (final(self)@, action@) == spec_steps(old(self)@, event@, budget as nat),
    {
        let mut action = self.step(event);
        let mut left = budget;
        loop
            invariant
                spec_steps(old(self)@, event@, budget as nat) == if action@ is Continue && left > 0 {
                    spec_steps(self@, SpecEvent::Resume, (left - 1) as nat)
                } else {
                    (self@, action@)
                },
            decreases left,
        {
            match action {
                Action::Continue => {
                    if left == 0 {
                        return Action::Continue;
                    }
                },
                other => {
                    return other;
                },
            }
            action = self.step(Event::Resume);
            left = left - 1;
        }
    }
}

/// The frame that came off the stack, put back, gives the stack as it was.
pub proof fn lemma_popped_pushed(m: SpecMachine)
    requires
        m.stack.len() > 0,
    ensures
        pushed(popped(m), m.stack.last()) == m,
{
    assert(m.stack.drop_last().push(m.stack.last()) =~= m.stack);
}

} // verus!
