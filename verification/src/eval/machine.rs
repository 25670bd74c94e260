use crate::ast::{
    cases_view, exprs_view, fields_view, stmts_view, Case, Expr, SpecCase, SpecExpr,
    SpecStmt, Stmt, UnaryOp,
};
use crate::eval::builtin::io::{parts_view, SpecTextPart, TextPart};
use crate::eval::env::{Env, SpecEnv};
use crate::eval::error::{EvalError, SpecEvalError};
use crate::eval::ops::{ArithOp, BinaryOp};
use crate::eval::value::{bindings_view, values_view, SpecValue, Value};
use crate::number::Num;
use std::rc::Rc;
use vstd::prelude::*;

verus! {

/// What an evaluation came to.
#[derive(Debug, PartialEq)]
pub enum Outcome {
    /// Nothing was being evaluated.
    Nothing,
    /// The value of the expression.
    Value(Value),
    /// The environment after the last statement of the program.
    Env(Env),
}

/// The mathematical value of an [`Outcome`].
pub enum SpecOutcome {
    Nothing,
    Value(SpecValue),
    Env(SpecEnv),
}

impl Outcome {
    pub open spec fn view(&self) -> SpecOutcome {
        match self {
            Outcome::Nothing => SpecOutcome::Nothing,
            Outcome::Value(v) => SpecOutcome::Value(v@),
            Outcome::Env(e) => SpecOutcome::Env(e@),
        }
    }
}

/// What the evaluator asks of its host after a step.
#[derive(Debug, PartialEq)]
pub enum Action {
    /// Nothing: step again, with [`Event::Resume`].
    Continue,
    /// The number that a decimal text stands for: answer with [`Event::Number`], or with
    /// [`Event::NotANumber`].
    ParseNumber(String),
    /// The result of an operation on two numbers: answer with [`Event::Number`].
    Arith { op: ArithOp, left: Num, right: Num },
    /// The decimal text of a number: answer with [`Event::Text`].
    FormatNumber(Num),
    /// Write these pieces to the output, and end the line if `newline` is set:
    /// answer with [`Event::Printed`].
    Print { parts: Vec<TextPart>, newline: bool },
    /// The text of the file at this path: answer with [`Event::FileContent`],
    /// or with [`Event::FileError`].
    ReadFile(String),
    /// The evaluation is over.
    Done(Outcome),
    /// The evaluation failed, and is over. `env` is what the statements of the program had
    /// built before, if a program was being executed.
    Failed { error: EvalError, env: Option<Env> },
}

/// The mathematical value of an [`Action`].
pub enum SpecAction {
    Continue,
    ParseNumber(Seq<char>),
    Arith { op: ArithOp, left: Num, right: Num },
    FormatNumber(Num),
    Print { parts: Seq<SpecTextPart>, newline: bool },
    ReadFile(Seq<char>),
    Done(SpecOutcome),
    Failed { error: SpecEvalError, env: Option<SpecEnv> },
}

impl Action {
    pub open spec fn view(&self) -> SpecAction {
        match self {
            Action::Continue => SpecAction::Continue,
            Action::ParseNumber(s) => SpecAction::ParseNumber(s@),
            Action::Arith { op, left, right } => SpecAction::Arith { op: *op, left: *left, right: *right },
            Action::FormatNumber(n) => SpecAction::FormatNumber(*n),
            Action::Print { parts, newline } => SpecAction::Print {
                parts: parts_view(parts@),
                newline: *newline,
            },
            Action::ReadFile(s) => SpecAction::ReadFile(s@),
            Action::Done(o) => SpecAction::Done(o@),
            Action::Failed { error, env } => SpecAction::Failed {
                error: error@,
                env: match env {
                    Some(e) => Some(e@),
                    None => None,
                },
            },
        }
    }
}

/// What the host answers.
#[derive(Debug, PartialEq)]
pub enum Event {
    /// Nothing was asked.
    Resume,
    Number(Num),
    /// The text stands for no number.
    NotANumber,
    Text(String),
    Printed,
    FileContent(String),
    /// The file could not be read; the text says why.
    FileError(String),
}

/// The mathematical value of an [`Event`].
pub enum SpecEvent {
    Resume,
    Number(Num),
    NotANumber,
    Text(Seq<char>),
    Printed,
    FileContent(Seq<char>),
    FileError(Seq<char>),
}

impl Event {
    pub open spec fn view(&self) -> SpecEvent {
        match self {
            Event::Resume => SpecEvent::Resume,
            Event::Number(n) => SpecEvent::Number(*n),
            Event::NotANumber => SpecEvent::NotANumber,
            Event::Text(s) => SpecEvent::Text(s@),
            Event::Printed => SpecEvent::Printed,
            Event::FileContent(s) => SpecEvent::FileContent(s@),
            Event::FileError(s) => SpecEvent::FileError(s@),
        }
    }
}

/// What is left to do once the value of a part is known.
#[derive(Debug, PartialEq)]
pub enum Frame {
    /// The statements of a program or of a module, of which number `next` is being executed.
    /// Its value is bound to the name `pending`, if there is one. `env` is the frame that the
    /// statements build up; `module` is the name of the module, for an import.
    Program { stmts: Vec<Stmt>, next: usize, env: Rc<Env>, pending: Option<String>, module: Option<String> },
    /// The condition of an `if` is being evaluated.
    If { then: Expr, else_: Expr, env: Rc<Env> },
    /// The subject of a `match` is being evaluated.
    Match { cases: Vec<Case>, env: Rc<Env> },
    /// The items of a list are being evaluated; `done` holds the values of the first ones.
    List { items: Vec<Expr>, done: Vec<Value>, env: Rc<Env> },
    /// The fields of a record are being evaluated, number `next` at present; `done` holds the
    /// fields before it.
    Record { fields: Vec<(String, Expr)>, next: usize, done: Vec<(String, Value)>, env: Rc<Env> },
    /// The left operand of an operator is being evaluated.
    Left { op: BinaryOp, right: Expr, env: Rc<Env> },
    /// The right operand of an operator is being evaluated; `left` is the value of the left one.
    Right { op: BinaryOp, left: Value },
    /// The operand of a prefix operator is being evaluated.
    Unary { op: UnaryOp },
    /// The collection of a slice is being evaluated.
    SliceList { start: Option<Expr>, end: Option<Expr>, env: Rc<Env> },
    /// The start of a slice is being evaluated.
    SliceStart { list: Value, end: Option<Expr>, env: Rc<Env> },
    /// The end of a slice is being evaluated.
    SliceEnd { list: Value, start: Option<Value> },
    /// The record of a field access is being evaluated.
    Access { field: String },
    /// The function of a call is being evaluated.
    Callee { args: Vec<Expr>, env: Rc<Env> },
    /// The arguments of a call are being evaluated; `done` holds the values of the first ones.
    Args { callee: Value, args: Vec<Expr>, done: Vec<Value>, env: Rc<Env> },
    /// `map`: `func` is being applied to the item after those whose images `done` holds.
    Mapping { func: Value, items: Vec<Value>, done: Vec<Value> },
    /// `filter`: `func` is being applied to item number `next`; `kept` holds the items before it
    /// that stay.
    Filtering { func: Value, items: Vec<Value>, next: usize, kept: Vec<Value> },
}

/// The mathematical value of a [`Frame`].
pub enum SpecFrame {
    Program {
        stmts: Seq<SpecStmt>,
        next: nat,
        env: SpecEnv,
        pending: Option<Seq<char>>,
        module: Option<Seq<char>>,
    },
    If { then: SpecExpr, else_: SpecExpr, env: SpecEnv },
    Match { cases: Seq<SpecCase>, env: SpecEnv },
    List { items: Seq<SpecExpr>, done: Seq<SpecValue>, env: SpecEnv },
    Record { fields: Seq<(Seq<char>, SpecExpr)>, next: nat, done: Seq<(Seq<char>, SpecValue)>, env: SpecEnv },
    Left { op: BinaryOp, right: SpecExpr, env: SpecEnv },
    Right { op: BinaryOp, left: SpecValue },
    Unary { op: UnaryOp },
    SliceList { start: Option<SpecExpr>, end: Option<SpecExpr>, env: SpecEnv },
    SliceStart { list: SpecValue, end: Option<SpecExpr>, env: SpecEnv },
    SliceEnd { list: SpecValue, start: Option<SpecValue> },
    Access { field: Seq<char> },
    Callee { args: Seq<SpecExpr>, env: SpecEnv },
    Args { callee: SpecValue, args: Seq<SpecExpr>, done: Seq<SpecValue>, env: SpecEnv },
    Mapping { func: SpecValue, items: Seq<SpecValue>, done: Seq<SpecValue> },
    Filtering { func: SpecValue, items: Seq<SpecValue>, next: nat, kept: Seq<SpecValue> },
}

/// The text of an optional string.
pub open spec fn text_view(s: Option<String>) -> Option<Seq<char>> {
    match s {
        Some(s) => Some(s@),
        None => None,
    }
}

/// The value of an optional expression.
pub open spec fn expr_view(e: Option<Expr>) -> Option<SpecExpr> {
    match e {
        Some(e) => Some(e@),
        None => None,
    }
}

/// The value of an optional value.
pub open spec fn value_view(v: Option<Value>) -> Option<SpecValue> {
    match v {
        Some(v) => Some(v@),
        None => None,
    }
}

impl Frame {
    pub open spec fn view(&self) -> SpecFrame {
        match self {
            Frame::Program { stmts, next, env, pending, module } => SpecFrame::Program {
                stmts: stmts_view(stmts@),
                next: *next as nat,
                env: (**env)@,
                pending: text_view(*pending),
                module: text_view(*module),
            },
            Frame::If { then, else_, env } => SpecFrame::If { then: then@, else_: else_@, env: (**env)@ },
            Frame::Match { cases, env } => SpecFrame::Match { cases: cases_view(cases@), env: (**env)@ },
            Frame::List { items, done, env } => SpecFrame::List {
                items: exprs_view(items@),
                done: values_view(done@),
                env: (**env)@,
            },
            Frame::Record { fields, next, done, env } => SpecFrame::Record {
                fields: fields_view(fields@),
                next: *next as nat,
                done: bindings_view(done@),
                env: (**env)@,
            },
            Frame::Left { op, right, env } => SpecFrame::Left { op: *op, right: right@, env: (**env)@ },
            Frame::Right { op, left } => SpecFrame::Right { op: *op, left: left@ },
            Frame::Unary { op } => SpecFrame::Unary { op: *op },
            Frame::SliceList { start, end, env } => SpecFrame::SliceList {
                start: expr_view(*start),
                end: expr_view(*end),
                env: (**env)@,
            },
            Frame::SliceStart { list, end, env } => SpecFrame::SliceStart {
                list: list@,
                end: expr_view(*end),
                env: (**env)@,
            },
            Frame::SliceEnd { list, start } => SpecFrame::SliceEnd { list: list@, start: value_view(*start) },
            Frame::Access { field } => SpecFrame::Access { field: field@ },
            Frame::Callee { args, env } => SpecFrame::Callee { args: exprs_view(args@), env: (**env)@ },
            Frame::Args { callee, args, done, env } => SpecFrame::Args {
                callee: callee@,
                args: exprs_view(args@),
                done: values_view(done@),
                env: (**env)@,
            },
            Frame::Mapping { func, items, done } => SpecFrame::Mapping {
                func: func@,
                items: values_view(items@),
                done: values_view(done@),
            },
            Frame::Filtering { func, items, next, kept } => SpecFrame::Filtering {
                func: func@,
                items: values_view(items@),
                next: *next as nat,
                kept: values_view(kept@),
            },
        }
    }
}

/// The values of a sequence of frames, in order.
pub open spec fn frames_view(frames: Seq<Frame>) -> Seq<SpecFrame> {
    Seq::new(frames.len(), |i: int| frames[i]@)
}

/// What the evaluator does at its next step.
#[derive(Debug, PartialEq)]
pub enum State {
    /// Nothing: no evaluation is under way.
    Idle,
    /// It goes on with the statements of the program on top of the stack.
    Run,
    /// It evaluates `expr` in `env`.
    Eval { expr: Expr, env: Rc<Env> },
    /// It hands `value` to the frame on top of the stack.
    Return { value: Value },
    /// It applies `func` to `args`.
    Apply { func: Value, args: Vec<Value> },
    /// It tries case number `next` of a `match` on `subject`.
    Scan { subject: Value, cases: Vec<Case>, next: usize, env: Rc<Env> },
    /// `sum`: it adds number `next` to `total`.
    Sum { numbers: Vec<Num>, next: usize, total: Num },
    /// It waits for the number of a literal.
    AwaitLiteral,
    /// It waits for the number of the pattern of case number `next`.
    AwaitPattern { subject: Value, cases: Vec<Case>, next: usize, env: Rc<Env> },
    /// It waits for the result of an operation on numbers.
    AwaitArith,
    /// `sum`: it waits for the total with number `next` added.
    AwaitSum { numbers: Vec<Num>, next: usize },
    /// `int`: it waits for the number of a text.
    AwaitInt,
    /// `str`: it waits for the text of a number.
    AwaitStr,
    /// `print` and `println`: it waits for the output to be written.
    AwaitPrint,
    /// `read_file`: it waits for the text of a file.
    AwaitRead,
    /// An import: it waits for the text of the module.
    AwaitImport { module: String },
}

/// The mathematical value of a [`State`].
pub enum SpecState {
    Idle,
    Run,
    Eval { expr: SpecExpr, env: SpecEnv },
    Return { value: SpecValue },
    Apply { func: SpecValue, args: Seq<SpecValue> },
    Scan { subject: SpecValue, cases: Seq<SpecCase>, next: nat, env: SpecEnv },
    Sum { numbers: Seq<Num>, next: nat, total: Num },
    AwaitLiteral,
    AwaitPattern { subject: SpecValue, cases: Seq<SpecCase>, next: nat, env: SpecEnv },
    AwaitArith,
    AwaitSum { numbers: Seq<Num>, next: nat },
    AwaitInt,
    AwaitStr,
    AwaitPrint,
    AwaitRead,
    AwaitImport { module: Seq<char> },
}

impl State {
    pub open spec fn view(&self) -> SpecState {
        match self {
            State::Idle => SpecState::Idle,
            State::Run => SpecState::Run,
            State::Eval { expr, env } => SpecState::Eval { expr: expr@, env: (**env)@ },
            State::Return { value } => SpecState::Return { value: value@ },
            State::Apply { func, args } => SpecState::Apply { func: func@, args: values_view(args@) },
            State::Scan { subject, cases, next, env } => SpecState::Scan {
                subject: subject@,
                cases: cases_view(cases@),
                next: *next as nat,
                env: (**env)@,
            },
            State::Sum { numbers, next, total } => SpecState::Sum {
                numbers: numbers@,
                next: *next as nat,
                total: *total,
            },
            State::AwaitLiteral => SpecState::AwaitLiteral,
            State::AwaitPattern { subject, cases, next, env } => SpecState::AwaitPattern {
                subject: subject@,
                cases: cases_view(cases@),
                next: *next as nat,
                env: (**env)@,
            },
            State::AwaitArith => SpecState::AwaitArith,
            State::AwaitSum { numbers, next } => SpecState::AwaitSum {
                numbers: numbers@,
                next: *next as nat,
            },
            State::AwaitInt => SpecState::AwaitInt,
            State::AwaitStr => SpecState::AwaitStr,
            State::AwaitPrint => SpecState::AwaitPrint,
            State::AwaitRead => SpecState::AwaitRead,
            State::AwaitImport { module } => SpecState::AwaitImport { module: module@ },
        }
    }
}

/// The evaluator, as a mathematical value: where it reads modules from, what is left to do,
/// and what it does next.
pub struct SpecMachine {
    pub current_dir: Seq<char>,
    pub stack: Seq<SpecFrame>,
    pub state: SpecState,
}

} // verus!
