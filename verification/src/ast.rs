use vstd::prelude::*;

pub mod same;

verus! {

/// A comparison operator.
#[derive(Debug, Clone, Copy, PartialEq, Eq, Structural)]
pub enum CompOp {
    Equal,
    NotEqual,
    LessThan,
    LessThanOrEqual,
    GreaterThan,
    GreaterThanOrEqual,
}

/// A logical connective.
#[derive(Debug, Clone, Copy, PartialEq, Eq, Structural)]
pub enum LogicOp {
    And,
    Or,
}

/// An additive operator.
#[derive(Debug, Clone, Copy, PartialEq, Eq, Structural)]
pub enum TermOp {
    Plus,
    Minus,
}

/// A multiplicative operator.
#[derive(Debug, Clone, Copy, PartialEq, Eq, Structural)]
pub enum FactorOp {
    Multiply,
    Divide,
    Modulus,
}

/// A prefix operator.
#[derive(Debug, Clone, Copy, PartialEq, Eq, Structural)]
pub enum UnaryOp {
    Minus,
    Not,
}

/// What a `match` case tests its subject against.
///
/// A number pattern carries the literal as written.
#[derive(Debug, PartialEq)]
pub enum Pattern {
    Number(String),
    String(String),
    Boolean(bool),
    Wildcard,
}

/// One case of a `match`: a pattern and the expression chosen when it matches.
#[derive(Debug, PartialEq)]
pub struct Case {
    pub pattern: Pattern,
    pub body: Expr,
}

/// An expression.
///
/// A number carries the literal as written.
#[derive(Debug, PartialEq)]
#[allow(inconsistent_fields)]
pub enum Expr {
    Func { params: Vec<String>, body: Box<Expr> },
    If { cond: Box<Expr>, then: Box<Expr>, else_: Box<Expr> },
    Match { cond: Box<Expr>, cases: Vec<Case> },
    List(Vec<Expr>),
    Record(Vec<(String, Expr)>),
    Pipe { left: Box<Expr>, right: Box<Expr> },
    Logic { left: Box<Expr>, op: LogicOp, right: Box<Expr> },
    Comp { left: Box<Expr>, op: CompOp, right: Box<Expr> },
    Range { start: Box<Expr>, end: Box<Expr> },
    Term { left: Box<Expr>, op: TermOp, right: Box<Expr> },
    Factor { left: Box<Expr>, op: FactorOp, right: Box<Expr> },
    Unary { op: UnaryOp, right: Box<Expr> },
    Index { list: Box<Expr>, index: Box<Expr> },
    Slice { list: Box<Expr>, start: Option<Box<Expr>>, end: Option<Box<Expr>> },
    Access { record: Box<Expr>, field: String },
    Call { name: Box<Expr>, args: Vec<Expr> },
    Identifier(String),
    Number(String),
    String(String),
    Boolean(bool),
}

/// A statement.
#[derive(Debug, PartialEq)]
pub enum Stmt {
    Expr(Expr),
    Let { name: String, val: Expr },
    Import { module: String },
}

/// A program: its statements in order.
#[derive(Debug, PartialEq)]
pub struct AST {
    pub stmts: Vec<Stmt>,
}

/// The mathematical value of a [`Pattern`].
pub enum SpecPattern {
    Number(Seq<char>),
    String(Seq<char>),
    Boolean(bool),
    Wildcard,
}

/// The mathematical value of a [`Case`].
pub struct SpecCase {
    pub pattern: SpecPattern,
    pub body: SpecExpr,
}

/// The mathematical value of an [`Expr`].
#[allow(inconsistent_fields)]
pub enum SpecExpr {
    Func { params: Seq<Seq<char>>, body: Box<SpecExpr> },
    If { cond: Box<SpecExpr>, then: Box<SpecExpr>, else_: Box<SpecExpr> },
    Match { cond: Box<SpecExpr>, cases: Seq<SpecCase> },
    List(Seq<SpecExpr>),
    Record(Seq<(Seq<char>, SpecExpr)>),
    Pipe { left: Box<SpecExpr>, right: Box<SpecExpr> },
    Logic { left: Box<SpecExpr>, op: LogicOp, right: Box<SpecExpr> },
    Comp { left: Box<SpecExpr>, op: CompOp, right: Box<SpecExpr> },
    Range { start: Box<SpecExpr>, end: Box<SpecExpr> },
    Term { left: Box<SpecExpr>, op: TermOp, right: Box<SpecExpr> },
    Factor { left: Box<SpecExpr>, op: FactorOp, right: Box<SpecExpr> },
    Unary { op: UnaryOp, right: Box<SpecExpr> },
    Index { list: Box<SpecExpr>, index: Box<SpecExpr> },
    Slice { list: Box<SpecExpr>, start: Option<Box<SpecExpr>>, end: Option<Box<SpecExpr>> },
    Access { record: Box<SpecExpr>, field: Seq<char> },
    Call { name: Box<SpecExpr>, args: Seq<SpecExpr> },
    Identifier(Seq<char>),
    Number(Seq<char>),
    String(Seq<char>),
    Boolean(bool),
}

/// The mathematical value of a [`Stmt`].
pub enum SpecStmt {
    Expr(SpecExpr),
    Let { name: Seq<char>, val: SpecExpr },
    Import { module: Seq<char> },
}

/// The texts of a sequence of strings, in order.
pub open spec fn names_view(names: Seq<String>) -> Seq<Seq<char>> {
    Seq::new(names.len(), |i: int| names[i]@)
}

/// The values of a sequence of expressions, in order.
pub open spec fn exprs_view(exprs: Seq<Expr>) -> Seq<SpecExpr>
    decreases exprs,
{
    Seq::new(exprs.len(), |i: int| if 0 <= i < exprs.len() { exprs[i].view() } else { arbitrary() })
}

/// The values of a sequence of cases, in order.
pub open spec fn cases_view(cases: Seq<Case>) -> Seq<SpecCase>
    decreases cases,
{
    Seq::new(cases.len(), |i: int| if 0 <= i < cases.len() { cases[i].view() } else { arbitrary() })
}

/// The values of a sequence of record fields, in order.
pub open spec fn fields_view(fields: Seq<(String, Expr)>) -> Seq<(Seq<char>, SpecExpr)>
    decreases fields,
{
    Seq::new(
        fields.len(),
        |i: int| if 0 <= i < fields.len() { (fields[i].0@, fields[i].1.view()) } else { arbitrary() },
    )
}

/// The values of a sequence of statements, in order.
pub open spec fn stmts_view(stmts: Seq<Stmt>) -> Seq<SpecStmt> {
    Seq::new(stmts.len(), |i: int| stmts[i]@)
}

/// The value of an optional boxed expression.
pub open spec fn opt_view(e: Option<Box<Expr>>) -> Option<Box<SpecExpr>>
    decreases e,
{
    match e {
        Some(b) => Some(Box::new((*b).view())),
        None => None,
    }
}

impl Pattern {
    pub open spec fn view(&self) -> SpecPattern {
        match self {
            Pattern::Number(s) => SpecPattern::Number(s@),
            Pattern::String(s) => SpecPattern::String(s@),
            Pattern::Boolean(b) => SpecPattern::Boolean(*b),
            Pattern::Wildcard => SpecPattern::Wildcard,
        }
    }
}

impl Case {
    pub open spec fn view(&self) -> SpecCase
        decreases self,
    {
        SpecCase { pattern: self.pattern@, body: self.body.view() }
    }
}

impl Expr {
    pub open spec fn view(&self) -> SpecExpr
        decreases self,
    {
        match self {
            Expr::Func { params, body } => SpecExpr::Func {
                params: names_view(params@),
                body: Box::new((**body).view()),
            },
            Expr::If { cond, then, else_ } => SpecExpr::If {
                cond: Box::new((**cond).view()),
                then: Box::new((**then).view()),
                else_: Box::new((**else_).view()),
            },
            Expr::Match { cond, cases } => SpecExpr::Match {
                cond: Box::new((**cond).view()),
                cases: cases_view(cases@),
            },
            Expr::List(items) => SpecExpr::List(exprs_view(items@)),
            Expr::Record(fields) => SpecExpr::Record(fields_view(fields@)),
            Expr::Pipe { left, right } => SpecExpr::Pipe {
                left: Box::new((**left).view()),
                right: Box::new((**right).view()),
            },
            Expr::Logic { left, op, right } => SpecExpr::Logic {
                left: Box::new((**left).view()),
                op: *op,
                right: Box::new((**right).view()),
            },
            Expr::Comp { left, op, right } => SpecExpr::Comp {
                left: Box::new((**left).view()),
                op: *op,
                right: Box::new((**right).view()),
            },
            Expr::Range { start, end } => SpecExpr::Range {
                start: Box::new((**start).view()),
                end: Box::new((**end).view()),
            },
            Expr::Term { left, op, right } => SpecExpr::Term {
                left: Box::new((**left).view()),
                op: *op,
                right: Box::new((**right).view()),
            },
            Expr::Factor { left, op, right } => SpecExpr::Factor {
                left: Box::new((**left).view()),
                op: *op,
                right: Box::new((**right).view()),
            },
            Expr::Unary { op, right } => SpecExpr::Unary { op: *op, right: Box::new((**right).view()) },
            Expr::Index { list, index } => SpecExpr::Index {
                list: Box::new((**list).view()),
                index: Box::new((**index).view()),
            },
            Expr::Slice { list, start, end } => SpecExpr::Slice {
                list: Box::new((**list).view()),
                start: opt_view(*start),
                end: opt_view(*end),
            },
            Expr::Access { record, field } => SpecExpr::Access {
                record: Box::new((**record).view()),
                field: field@,
            },
            Expr::Call { name, args } => SpecExpr::Call {
                name: Box::new((**name).view()),
                args: exprs_view(args@),
            },
            Expr::Identifier(s) => SpecExpr::Identifier(s@),
            Expr::Number(s) => SpecExpr::Number(s@),
            Expr::String(s) => SpecExpr::String(s@),
            Expr::Boolean(b) => SpecExpr::Boolean(*b),
        }
    }
}

impl Stmt {
    pub open spec fn view(&self) -> SpecStmt {
        match self {
            Stmt::Expr(e) => SpecStmt::Expr(e@),
            Stmt::Let { name, val } => SpecStmt::Let { name: name@, val: val@ },
            Stmt::Import { module } => SpecStmt::Import { module: module@ },
        }
    }
}

impl AST {
    /// The program as the sequence of the values of its statements.
    pub open spec fn view(&self) -> Seq<SpecStmt> {
        stmts_view(self.stmts@)
    }
}

/// A copy of a list of strings.
pub fn clone_names(names: &Vec<String>) -> (r: Vec<String>)
    ensures
        names_view(r@) == names_view(names@),
{
    let mut out: Vec<String> = Vec::new();
    let mut i: usize = 0;
    while i < names.len()
        invariant
            i <= names.len(),
            out.len() == i,
            forall|j: int| 0 <= j < i ==> out@[j]@ == names@[j]@,
        decreases names.len() - i,
    {
        out.push(names[i].clone());
        i += 1;
    }
    assert(names_view(out@) =~= names_view(names@));
    out
}

/// A copy of a list of expressions.
pub fn clone_exprs(exprs: &Vec<Expr>) -> (r: Vec<Expr>)
    ensures
        exprs_view(r@) == exprs_view(exprs@),
    decreases exprs,
{
    let mut out: Vec<Expr> = Vec::new();
    let mut i: usize = 0;
    while i < exprs.len()
        invariant
            i <= exprs.len(),
            out.len() == i,
            forall|j: int| 0 <= j < i ==> out@[j]@ == exprs@[j]@,
        decreases exprs.len() - i,
    {
        let c = exprs[i].clone();
        out.push(c);
        i += 1;
    }
    assert(exprs_view(out@) =~= exprs_view(exprs@));
    out
}

/// A copy of a list of cases.
pub fn clone_cases(cases: &Vec<Case>) -> (r: Vec<Case>)
    ensures
        cases_view(r@) == cases_view(cases@),
    decreases cases,
{
    let mut out: Vec<Case> = Vec::new();
    let mut i: usize = 0;
    while i < cases.len()
        invariant
            i <= cases.len(),
            out.len() == i,
            forall|j: int| 0 <= j < i ==> out@[j]@ == cases@[j]@,
        decreases cases.len() - i,
    {
        let c = cases[i].clone();
        out.push(c);
        i += 1;
    }
    assert(cases_view(out@) =~= cases_view(cases@));
    out
}

/// A copy of a list of record fields.
pub fn clone_fields(fields: &Vec<(String, Expr)>) -> (r: Vec<(String, Expr)>)
    ensures
        fields_view(r@) == fields_view(fields@),
    decreases fields,
{
    let mut out: Vec<(String, Expr)> = Vec::new();
    let mut i: usize = 0;
    while i < fields.len()
        invariant
            i <= fields.len(),
            out.len() == i,
            forall|j: int| 0 <= j < i ==> out@[j].0@ == fields@[j].0@ && out@[j].1@ == fields@[j].1@,
        decreases fields.len() - i,
    {
        let c = fields[i].1.clone();
        out.push((fields[i].0.clone(), c));
        i += 1;
    }
    assert(fields_view(out@) =~= fields_view(fields@));
    out
}

/// A copy of an optional boxed expression.
pub fn clone_opt(e: &Option<Box<Expr>>) -> (r: Option<Box<Expr>>)
    ensures
        opt_view(r) == opt_view(*e),
    decreases e,
{
    match e {
        Some(b) => Some(Box::new((**b).clone())),
        None => None,
    }
}

impl Clone for Pattern {
    fn clone(&self) -> (r: Self)
        ensures
            r@ == self@,
    {
        match self {
            Pattern::Number(s) => Pattern::Number(s.clone()),
            Pattern::String(s) => Pattern::String(s.clone()),
            Pattern::Boolean(b) => Pattern::Boolean(*b),
            Pattern::Wildcard => Pattern::Wildcard,
        }
    }
}

impl Clone for Case {
    fn clone(&self) -> (r: Self)
        ensures
            r@ == self@,
        decreases self,
    {
        Case { pattern: self.pattern.clone(), body: self.body.clone() }
    }
}

impl Clone for Expr {
    fn clone(&self) -> (r: Self)
        ensures
            r@ == self@,
        decreases self,
    {
        match self {
            Expr::Func { params, body } => Expr::Func {
                params: clone_names(params),
                body: Box::new((**body).clone()),
            },
            Expr::If { cond, then, else_ } => Expr::If {
                cond: Box::new((**cond).clone()),
                then: Box::new((**then).clone()),
                else_: Box::new((**else_).clone()),
            },
            Expr::Match { cond, cases } => Expr::Match {
                cond: Box::new((**cond).clone()),
                cases: clone_cases(cases),
            },
            Expr::List(items) => Expr::List(clone_exprs(items)),
            Expr::Record(fields) => Expr::Record(clone_fields(fields)),
            Expr::Pipe { left, right } => Expr::Pipe {
                left: Box::new((**left).clone()),
                right: Box::new((**right).clone()),
            },
            Expr::Logic { left, op, right } => Expr::Logic {
                left: Box::new((**left).clone()),
                op: *op,
                right: Box::new((**right).clone()),
            },
            Expr::Comp { left, op, right } => Expr::Comp {
                left: Box::new((**left).clone()),
                op: *op,
                right: Box::new((**right).clone()),
            },
            Expr::Range { start, end } => Expr::Range {
                start: Box::new((**start).clone()),
                end: Box::new((**end).clone()),
            },
            Expr::Term { left, op, right } => Expr::Term {
                left: Box::new((**left).clone()),
                op: *op,
                right: Box::new((**right).clone()),
            },
            Expr::Factor { left, op, right } => Expr::Factor {
                left: Box::new((**left).clone()),
                op: *op,
                right: Box::new((**right).clone()),
            },
            Expr::Unary { op, right } => Expr::Unary { op: *op, right: Box::new((**right).clone()) },
            Expr::Index { list, index } => Expr::Index {
                list: Box::new((**list).clone()),
                index: Box::new((**index).clone()),
            },
            Expr::Slice { list, start, end } => Expr::Slice {
                list: Box::new((**list).clone()),
                start: clone_opt(start),
                end: clone_opt(end),
            },
            Expr::Access { record, field } => Expr::Access {
                record: Box::new((**record).clone()),
                field: field.clone(),
            },
            Expr::Call { name, args } => Expr::Call {
                name: Box::new((**name).clone()),
                args: clone_exprs(args),
            },
            Expr::Identifier(s) => Expr::Identifier(s.clone()),
            Expr::Number(s) => Expr::Number(s.clone()),
            Expr::String(s) => Expr::String(s.clone()),
            Expr::Boolean(b) => Expr::Boolean(*b),
        }
    }
}

impl Clone for Stmt {
    fn clone(&self) -> (r: Self)
        ensures
            r@ == self@,
    {
        match self {
            Stmt::Expr(e) => Stmt::Expr(e.clone()),
            Stmt::Let { name, val } => Stmt::Let { name: name.clone(), val: val.clone() },
            Stmt::Import { module } => Stmt::Import { module: module.clone() },
        }
    }
}

impl Clone for AST {
    fn clone(&self) -> (r: Self)
        ensures
            r@ == self@,
    {
        let mut out: Vec<Stmt> = Vec::new();
        let mut i: usize = 0;
        while i < self.stmts.len()
            invariant
                i <= self.stmts.len(),
                out.len() == i,
                forall|j: int| 0 <= j < i ==> out@[j]@ == self.stmts@[j]@,
            decreases self.stmts.len() - i,
        {
            out.push(self.stmts[i].clone());
            i += 1;
        }
        assert(stmts_view(out@) =~= stmts_view(self.stmts@));
        AST { stmts: out }
    }
}

} // verus!
