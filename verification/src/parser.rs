use crate::ast::{
    cases_view, exprs_view, fields_view, names_view, opt_view, stmts_view, Case, CompOp, Expr, FactorOp,
    LogicOp, Pattern, SpecCase, SpecExpr, SpecStmt, Stmt, TermOp, UnaryOp, AST,
};
use crate::parser::error::{ParseError, ParseErrorKind, SpecParseError};
use crate::parser::grammar::{
    advanced, fail_at, kind_at, parse_bracket, parse_cases, parse_comp_expr, parse_expr, parse_factor_expr,
    parse_factor_rest, parse_fields, parse_items, parse_logic_expr, parse_params, parse_pipe_expr,
    parse_pipe_rest, parse_postfix, parse_primary_expr, parse_program, parse_range_expr, parse_rule,
    parse_statement, parse_term_expr, parse_term_rest, parse_unary_expr, pattern_of, Bracket,
};
use crate::token::{tokens_view, SpecToken, SpecTokenType, Token, TokenType};
use vstd::prelude::*;

pub mod error;
pub mod grammar;

verus! {

/// What a parse of an expression returned, with the index it went on to.
pub open spec fn expr_parsed(r: Result<Expr, ParseError>, next: int) -> Result<(SpecExpr, int), SpecParseError> {
    match r {
        Ok(e) => Ok((e@, next)),
        Err(e) => Err(e@),
    }
}

/// The values of two lists of expressions, the second with one more at its end.
proof fn lemma_exprs_push(before: Seq<Expr>, after: Seq<Expr>, e: Expr)
    requires
        after == before.push(e),
    ensures
        exprs_view(after) == exprs_view(before).push(e@),
{
    assert(exprs_view(after) =~= exprs_view(before).push(e@));
}

/// A parser: a cursor over tokens that reads a program from them.
pub struct Parser {
    tokens: Vec<Token>,
    position: usize,
}

impl Parser {
    /// The tokens that the parser reads.
    pub closed spec fn tokens(&self) -> Seq<SpecToken> {
        tokens_view(self.tokens@)
    }

    /// The index of the next token to read.
    pub closed spec fn cursor(&self) -> int {
        self.position as int
    }

    /// The cursor lies within the tokens or just after them.
    pub closed spec fn wf(&self) -> bool {
        self.position <= self.tokens.len()
    }

    /// A parser at the first of `tokens`.
    pub fn new(tokens: Vec<Token>) -> (parser: Parser)
        ensures
            parser.wf(),
            parser.tokens() == tokens_view(tokens@),
            parser.cursor() == 0,
    {
        Parser { tokens, position: 0 }
    }

    /// The kind of the token under the cursor; beyond the last token, `EOF`.
    fn current_token_type(&self) -> (t: &TokenType)
        ensures
            t@ == kind_at(self.tokens(), self.cursor()),
    {
        if self.position < self.tokens.len() {
            &self.tokens[self.position].token_type
        } else {
            &TokenType::EOF
        }
    }

    /// Moves the cursor over one token, if there is one.
    fn next(&mut self)
        requires
            old(self).wf(),
        ensures
            final(self).wf(),
            final(self).tokens() == old(self).tokens(),
            final(self).cursor() == if old(self).cursor() < old(self).tokens().len() {
                old(self).cursor() + 1
            } else {
                old(self).cursor()
            },
    {
        if self.position < self.tokens.len() {
            self.position += 1;
        }
    }

    /// The failure of kind `kind` at the cursor.
    fn error(&self, kind: ParseErrorKind) -> (e: ParseError)
        ensures
            e@ == fail_at(self.tokens(), self.cursor(), kind),
    {
        ParseError { kind, position: self.position, found: self.current_token_type().clone() }
    }

    /// Reads a program: statements up to the first `EOF` or the end of the tokens.
    /// The first statement that cannot be read makes the whole parse fail, with a failure
    /// that names the token at which it could not go on.
    pub fn parse(&mut self) -> (r: Result<AST, ParseError>)
        requires
            old(self).wf(),
        ensures
            final(self).wf(),
            final(self).tokens() == old(self).tokens(),
            r matches Err(e) ==> e.kind != ParseErrorKind::NoProgress,
            match r {
                Ok(ast) => parse_program(old(self).tokens(), old(self).cursor(), Seq::empty()) == Ok::<
                    Seq<SpecStmt>,
                    SpecParseError,
                >(ast@),
                Err(e) => parse_program(old(self).tokens(), old(self).cursor(), Seq::empty()) == Err::<
                    Seq<SpecStmt>,
                    SpecParseError,
                >(e@),
            },
    {
        reveal(parse_rule);
        let mut stmts: Vec<Stmt> = Vec::new();
        let ghost ts = self.tokens();
        let ghost begin = self.cursor();
        assert(stmts_view(stmts@) =~= Seq::empty());
        loop
            invariant
                self.wf(),
                self.tokens() == ts,
                ts == old(self).tokens(),
                begin == old(self).cursor(),
                parse_program(ts, self.cursor(), stmts_view(stmts@)) == parse_program(
                    ts,
                    begin,
                    Seq::empty(),
                ),
            decreases ts.len() - self.cursor(),
        {
            reveal(parse_rule);
            if let TokenType::EOF = self.current_token_type() {
                return Ok(AST { stmts });
            }
            let ghost before = stmts_view(stmts@);
            match self.parse_statement() {
                Ok(stmt) => {
                    stmts.push(stmt);
                    assert(stmts_view(stmts@) =~= before.push(stmt@));
                },
                Err(e) => {
                    return Err(e);
                },
            }
        }
    }

    /// Reads a statement.
    fn parse_statement(&mut self) -> (r: Result<Stmt, ParseError>)
        requires
            old(self).wf(),
        ensures
            final(self).wf(),
            final(self).tokens() == old(self).tokens(),
            r matches Err(e) ==> e.kind != ParseErrorKind::NoProgress,
            r is Ok ==> advanced(old(self).tokens(), old(self).cursor(), final(self).cursor()),
            match r {
                Ok(stmt) => parse_statement(old(self).tokens(), old(self).cursor()) == Ok::<
                    (SpecStmt, int),
                    SpecParseError,
                >((stmt@, final(self).cursor())),
                Err(e) => parse_statement(old(self).tokens(), old(self).cursor()) == Err::<
                    (SpecStmt, int),
                    SpecParseError,
                >(e@),
            },
    {
        reveal(parse_rule);
        if let TokenType::Let = self.current_token_type() {
            self.parse_let_stmt()
        } else {
            self.parse_expr_stmt()
        }
    }

    /// Reads `let` name `=` expression.
    fn parse_let_stmt(&mut self) -> (r: Result<Stmt, ParseError>)
        requires
            old(self).wf(),
            kind_at(old(self).tokens(), old(self).cursor()) is Let,
        ensures
            final(self).wf(),
            final(self).tokens() == old(self).tokens(),
            r matches Err(e) ==> e.kind != ParseErrorKind::NoProgress,
            r is Ok ==> advanced(old(self).tokens(), old(self).cursor(), final(self).cursor()),
            match r {
                Ok(stmt) => parse_statement(old(self).tokens(), old(self).cursor()) == Ok::<
                    (SpecStmt, int),
                    SpecParseError,
                >((stmt@, final(self).cursor())),
                Err(e) => parse_statement(old(self).tokens(), old(self).cursor()) == Err::<
                    (SpecStmt, int),
                    SpecParseError,
                >(e@),
            },
    {
        reveal(parse_rule);
        self.next();
        let name = match self.current_token_type() {
            TokenType::Identifier(id) => id.clone(),
            _ => {
                return Err(self.error(ParseErrorKind::ExpectedIdentifierAfterLet));
            },
        };
        self.next();
        if let TokenType::Assign = self.current_token_type() {
        } else {
            return Err(self.error(ParseErrorKind::ExpectedAssign));
        }
        self.next();
        match self.parse_expr() {
            Ok(val) => Ok(Stmt::Let { name, val }),
            Err(e) => Err(e),
        }
    }

    /// Reads an expression as a statement.
    fn parse_expr_stmt(&mut self) -> (r: Result<Stmt, ParseError>)
        requires
            old(self).wf(),
            !(kind_at(old(self).tokens(), old(self).cursor()) is Let),
        ensures
            final(self).wf(),
            final(self).tokens() == old(self).tokens(),
            r matches Err(e) ==> e.kind != ParseErrorKind::NoProgress,
            r is Ok ==> advanced(old(self).tokens(), old(self).cursor(), final(self).cursor()),
            match r {
                Ok(stmt) => parse_statement(old(self).tokens(), old(self).cursor()) == Ok::<
                    (SpecStmt, int),
                    SpecParseError,
                >((stmt@, final(self).cursor())),
                Err(e) => parse_statement(old(self).tokens(), old(self).cursor()) == Err::<
                    (SpecStmt, int),
                    SpecParseError,
                >(e@),
            },
    {
        reveal(parse_rule);
        match self.parse_expr() {
            Ok(expr) => Ok(Stmt::Expr(expr)),
            Err(e) => Err(e),
        }
    }

    /// Reads an expression.
    fn parse_expr(&mut self) -> (r: Result<Expr, ParseError>)
        requires
            old(self).wf(),
        ensures
            final(self).wf(),
            final(self).tokens() == old(self).tokens(),
            r matches Err(e) ==> e.kind != ParseErrorKind::NoProgress,
            r is Ok ==> advanced(old(self).tokens(), old(self).cursor(), final(self).cursor()),
            expr_parsed(r, final(self).cursor()) == parse_expr(old(self).tokens(), old(self).cursor()),
        decreases old(self).tokens().len() - old(self).cursor(), 10nat, 1nat,
    {
        match self.current_token_type() {
            TokenType::If => self.parse_if(),
            TokenType::Match => self.parse_match(),
            TokenType::Fn => self.parse_fn(),
            _ => {
                reveal(parse_rule);
                self.parse_pipe_expr()
            },
        }
    }

    /// Reads `if` condition `then` expression `else` expression.
    fn parse_if(&mut self) -> (r: Result<Expr, ParseError>)
        requires
            old(self).wf(),
            kind_at(old(self).tokens(), old(self).cursor()) is If,
        ensures
            final(self).wf(),
            final(self).tokens() == old(self).tokens(),
            r matches Err(e) ==> e.kind != ParseErrorKind::NoProgress,
            r is Ok ==> advanced(old(self).tokens(), old(self).cursor(), final(self).cursor()),
            expr_parsed(r, final(self).cursor()) == parse_expr(old(self).tokens(), old(self).cursor()),
        decreases old(self).tokens().len() - old(self).cursor(), 10nat, 0nat,
    {
        reveal(parse_rule);
        self.next();
        let cond = match self.parse_expr() {
            Ok(e) => e,
            Err(e) => {
                return Err(e);
            },
        };
        if let TokenType::Then = self.current_token_type() {
        } else {
            return Err(self.error(ParseErrorKind::ExpectedThen));
        }
        self.next();
        let then_branch = match self.parse_expr() {
            Ok(e) => e,
            Err(e) => {
                return Err(e);
            },
        };
        if let TokenType::Else = self.current_token_type() {
        } else {
            return Err(self.error(ParseErrorKind::ExpectedElse));
        }
        self.next();
        let else_branch = match self.parse_expr() {
            Ok(e) => e,
            Err(e) => {
                return Err(e);
            },
        };
        Ok(Expr::If { cond: Box::new(cond), then: Box::new(then_branch), else_: Box::new(else_branch) })
    }

    /// Reads `match` subject and its cases.
    fn parse_match(&mut self) -> (r: Result<Expr, ParseError>)
        requires
            old(self).wf(),
            kind_at(old(self).tokens(), old(self).cursor()) is Match,
        ensures
            final(self).wf(),
            final(self).tokens() == old(self).tokens(),
            r matches Err(e) ==> e.kind != ParseErrorKind::NoProgress,
            r is Ok ==> advanced(old(self).tokens(), old(self).cursor(), final(self).cursor()),
            expr_parsed(r, final(self).cursor()) == parse_expr(old(self).tokens(), old(self).cursor()),
        decreases old(self).tokens().len() - old(self).cursor(), 10nat, 0nat,
    {
        reveal(parse_rule);
        self.next();
        let cond = match self.parse_expr() {
            Ok(e) => e,
            Err(e) => {
                return Err(e);
            },
        };
        let cases = match self.parse_cases() {
            Ok(c) => c,
            Err(e) => {
                return Err(e);
            },
        };
        if cases.len() == 0 {
            return Err(self.error(ParseErrorKind::ExpectedCase));
        }
        Ok(Expr::Match { cond: Box::new(cond), cases })
    }

    /// Reads `fn` parameters `->` body.
    fn parse_fn(&mut self) -> (r: Result<Expr, ParseError>)
        requires
            old(self).wf(),
            kind_at(old(self).tokens(), old(self).cursor()) is Fn,
        ensures
            final(self).wf(),
            final(self).tokens() == old(self).tokens(),
            r matches Err(e) ==> e.kind != ParseErrorKind::NoProgress,
            r is Ok ==> advanced(old(self).tokens(), old(self).cursor(), final(self).cursor()),
            expr_parsed(r, final(self).cursor()) == parse_expr(old(self).tokens(), old(self).cursor()),
        decreases old(self).tokens().len() - old(self).cursor(), 10nat, 0nat,
    {
        reveal(parse_rule);
        self.next();
        if let TokenType::Underscore = self.current_token_type() {
            self.next();
        }
        let params = match self.parse_params() {
            Ok(p) => p,
            Err(e) => {
                return Err(e);
            },
        };
        if let TokenType::Arrow = self.current_token_type() {
        } else {
            return Err(self.error(ParseErrorKind::ExpectedArrowAfterParameters));
        }
        self.next();
        let body = match self.parse_expr() {
            Ok(e) => e,
            Err(e) => {
                return Err(e);
            },
        };
        Ok(Expr::Func { params, body: Box::new(body) })
    }

    /// The pattern that the token under the cursor stands for, if it is one.
    fn parse_pattern(&self) -> (r: Option<Pattern>)
        ensures
            match r {
                Some(p) => pattern_of(kind_at(self.tokens(), self.cursor())) == Some(p@),
                None => pattern_of(kind_at(self.tokens(), self.cursor())) is None,
            },
    {
        match self.current_token_type() {
            TokenType::Number(n) => Some(Pattern::Number(n.clone())),
            TokenType::String(s) => Some(Pattern::String(s.clone())),
            TokenType::True => Some(Pattern::Boolean(true)),
            TokenType::False => Some(Pattern::Boolean(false)),
            TokenType::Underscore => Some(Pattern::Wildcard),
            _ => None,
        }
    }

    /// Reads one case of a `match`, after those read so far.
    fn parse_case(&mut self, Ghost(so_far): Ghost<Seq<SpecCase>>) -> (r: Result<Case, ParseError>)
        requires
            old(self).wf(),
            kind_at(old(self).tokens(), old(self).cursor()) is Pipe,
        ensures
            final(self).wf(),
            final(self).tokens() == old(self).tokens(),
            r matches Err(e) ==> e.kind != ParseErrorKind::NoProgress,
            r is Ok ==> advanced(old(self).tokens(), old(self).cursor(), final(self).cursor()),
            match r {
                Ok(case) => parse_cases(old(self).tokens(), old(self).cursor(), so_far) == parse_cases(
                    old(self).tokens(),
                    final(self).cursor(),
                    so_far.push(case@),
                ),
                Err(e) => parse_cases(old(self).tokens(), old(self).cursor(), so_far) == Err::<
                    (Seq<SpecCase>, int),
                    SpecParseError,
                >(e@),
            },
        decreases old(self).tokens().len() - old(self).cursor(), 11nat, 0nat,
    {
        reveal(parse_rule);
        self.next();
        let pattern = match self.parse_pattern() {
            Some(p) => p,
            None => {
                return Err(self.error(ParseErrorKind::ExpectedPattern));
            },
        };
        self.next();
        if let TokenType::Arrow = self.current_token_type() {
        } else {
            return Err(self.error(ParseErrorKind::ExpectedArrowAfterPattern));
        }
        self.next();
        match self.parse_expr() {
            Ok(body) => Ok(Case { pattern, body }),
            Err(e) => Err(e),
        }
    }

    /// Reads the cases of a `match`.
    fn parse_cases(&mut self) -> (r: Result<Vec<Case>, ParseError>)
        requires
            old(self).wf(),
            old(self).cursor() > 0,
        ensures
            final(self).wf(),
            final(self).tokens() == old(self).tokens(),
            r matches Err(e) ==> e.kind != ParseErrorKind::NoProgress,
            r is Ok ==> old(self).cursor() <= final(self).cursor() <= final(self).tokens().len(),
            match r {
                Ok(cases) => parse_cases(old(self).tokens(), old(self).cursor(), Seq::empty()) == Ok::<
                    (Seq<SpecCase>, int),
                    SpecParseError,
                >((cases_view(cases@), final(self).cursor())),
                Err(e) => parse_cases(old(self).tokens(), old(self).cursor(), Seq::empty()) == Err::<
                    (Seq<SpecCase>, int),
                    SpecParseError,
                >(e@),
            },
        decreases old(self).tokens().len() - old(self).cursor(), 11nat, 1nat,
    {
        let ghost ts = self.tokens();
        let ghost begin = self.cursor();
        let mut cases: Vec<Case> = Vec::new();
        assert(cases_view(cases@) =~= Seq::empty());
        loop
            invariant
                self.wf(),
                self.tokens() == ts,
                ts == old(self).tokens(),
                begin == old(self).cursor(),
                begin <= self.cursor() <= ts.len(),
                parse_cases(ts, self.cursor(), cases_view(cases@)) == parse_cases(ts, begin, Seq::empty()),
            decreases ts.len() - self.cursor(),
        {
            if let TokenType::Pipe = self.current_token_type() {
            } else {
                reveal(parse_rule);
                return Ok(cases);
            }
            let ghost before = cases_view(cases@);
            match self.parse_case(Ghost(before)) {
                Ok(case) => {
                    cases.push(case);
                    assert(cases_view(cases@) =~= before.push(case@));
                },
                Err(e) => {
                    return Err(e);
                },
            }
        }
    }

    /// Reads the parameters of a function.
    fn parse_params(&mut self) -> (r: Result<Vec<String>, ParseError>)
        requires
            old(self).wf(),
        ensures
            final(self).wf(),
            final(self).tokens() == old(self).tokens(),
            r matches Err(e) ==> e.kind != ParseErrorKind::NoProgress,
            r is Ok ==> old(self).cursor() <= final(self).cursor() <= final(self).tokens().len(),
            match r {
                Ok(params) => parse_params(old(self).tokens(), old(self).cursor(), Seq::empty()) == Ok::<
                    (Seq<Seq<char>>, int),
                    SpecParseError,
                >((names_view(params@), final(self).cursor())),
                Err(e) => parse_params(old(self).tokens(), old(self).cursor(), Seq::empty()) == Err::<
                    (Seq<Seq<char>>, int),
                    SpecParseError,
                >(e@),
            },
    {
        reveal(parse_rule);
        let ghost ts = self.tokens();
        let ghost begin = self.cursor();
        let mut params: Vec<String> = Vec::new();
        assert(names_view(params@) =~= Seq::empty());
        loop
            invariant
                self.wf(),
                self.tokens() == ts,
                ts == old(self).tokens(),
                begin == old(self).cursor(),
                begin <= self.cursor() <= ts.len(),
                parse_params(ts, self.cursor(), names_view(params@)) == parse_params(
                    ts,
                    begin,
                    Seq::empty(),
                ),
            decreases ts.len() - self.cursor(),
        {
            reveal(parse_rule);
            if let TokenType::Arrow = self.current_token_type() {
                return Ok(params);
            }
            let ghost before = names_view(params@);
            match self.current_token_type() {
                TokenType::Identifier(id) => {
                    let name = id.clone();
                    params.push(name);
                    assert(names_view(params@) =~= before.push(name@));
                    self.next();
                },
                _ => {
                    return Err(self.error(ParseErrorKind::ExpectedParameter));
                },
            }
            if let TokenType::Comma = self.current_token_type() {
                self.next();
            } else {
                return Ok(params);
            }
        }
    }

    /// Reads a chain of pipes.
    fn parse_pipe_expr(&mut self) -> (r: Result<Expr, ParseError>)
        requires
            old(self).wf(),
        ensures
            final(self).wf(),
            final(self).tokens() == old(self).tokens(),
            r matches Err(e) ==> e.kind != ParseErrorKind::NoProgress,
            r is Ok ==> advanced(old(self).tokens(), old(self).cursor(), final(self).cursor()),
            expr_parsed(r, final(self).cursor()) == parse_pipe_expr(
                old(self).tokens(),
                old(self).cursor(),
            ),
        decreases old(self).tokens().len() - old(self).cursor(), 9nat, 1nat,
    {
        reveal(parse_rule);
        let ghost ts = self.tokens();
        let ghost begin = self.cursor();
        let mut expr = match self.parse_logic_expr() {
            Ok(e) => e,
            Err(e) => {
                return Err(e);
            },
        };
        loop
            invariant
                self.wf(),
                self.tokens() == ts,
                ts == old(self).tokens(),
                begin == old(self).cursor(),
                advanced(ts, begin, self.cursor()),
                parse_pipe_rest(ts, self.cursor(), expr@) == parse_pipe_expr(ts, begin),
            decreases ts.len() - self.cursor(),
        {
            reveal(parse_rule);
            if let TokenType::ForwardPipe = self.current_token_type() {
            } else {
                return Ok(expr);
            }
            self.next();
            let right = match self.parse_logic_expr() {
                Ok(e) => e,
                Err(e) => {
                    return Err(e);
                },
            };
            expr = Expr::Pipe { left: Box::new(expr), right: Box::new(right) };
        }
    }

    /// Reads a comparison, or two with `and` or `or` between them.
    fn parse_logic_expr(&mut self) -> (r: Result<Expr, ParseError>)
        requires
            old(self).wf(),
        ensures
            final(self).wf(),
            final(self).tokens() == old(self).tokens(),
            r matches Err(e) ==> e.kind != ParseErrorKind::NoProgress,
            r is Ok ==> advanced(old(self).tokens(), old(self).cursor(), final(self).cursor()),
            expr_parsed(r, final(self).cursor()) == parse_logic_expr(
                old(self).tokens(),
                old(self).cursor(),
            ),
        decreases old(self).tokens().len() - old(self).cursor(), 8nat, 1nat,
    {
        reveal(parse_rule);
        let left = match self.parse_comp_expr() {
            Ok(e) => e,
            Err(e) => {
                return Err(e);
            },
        };
        let op = match self.current_token_type() {
            TokenType::And => LogicOp::And,
            TokenType::Or => LogicOp::Or,
            _ => {
                return Ok(left);
            },
        };
        self.next();
        let right = match self.parse_comp_expr() {
            Ok(e) => e,
            Err(e) => {
                return Err(e);
            },
        };
        Ok(Expr::Logic { left: Box::new(left), op, right: Box::new(right) })
    }

    /// Reads a range, or two with a comparison operator between them.
    fn parse_comp_expr(&mut self) -> (r: Result<Expr, ParseError>)
        requires
            old(self).wf(),
        ensures
            final(self).wf(),
            final(self).tokens() == old(self).tokens(),
            r matches Err(e) ==> e.kind != ParseErrorKind::NoProgress,
            r is Ok ==> advanced(old(self).tokens(), old(self).cursor(), final(self).cursor()),
            expr_parsed(r, final(self).cursor()) == parse_comp_expr(
                old(self).tokens(),
                old(self).cursor(),
            ),
        decreases old(self).tokens().len() - old(self).cursor(), 7nat, 1nat,
    {
        reveal(parse_rule);
        let left = match self.parse_range_expr() {
            Ok(e) => e,
            Err(e) => {
                return Err(e);
            },
        };
        let op = match self.current_token_type() {
            TokenType::Equal => CompOp::Equal,
            TokenType::NotEqual => CompOp::NotEqual,
            TokenType::LessThan => CompOp::LessThan,
            TokenType::LessThanOrEqual => CompOp::LessThanOrEqual,
            TokenType::GreaterThan => CompOp::GreaterThan,
            TokenType::GreaterThanOrEqual => CompOp::GreaterThanOrEqual,
            _ => {
                return Ok(left);
            },
        };
        self.next();
        let right = match self.parse_range_expr() {
            Ok(e) => e,
            Err(e) => {
                return Err(e);
            },
        };
        Ok(Expr::Comp { left: Box::new(left), op, right: Box::new(right) })
    }

    /// Reads a sum, or two with `..` between them.
    fn parse_range_expr(&mut self) -> (r: Result<Expr, ParseError>)
        requires
            old(self).wf(),
        ensures
            final(self).wf(),
            final(self).tokens() == old(self).tokens(),
            r matches Err(e) ==> e.kind != ParseErrorKind::NoProgress,
            r is Ok ==> advanced(old(self).tokens(), old(self).cursor(), final(self).cursor()),
            expr_parsed(r, final(self).cursor()) == parse_range_expr(
                old(self).tokens(),
                old(self).cursor(),
            ),
        decreases old(self).tokens().len() - old(self).cursor(), 6nat, 1nat,
    {
        reveal(parse_rule);
        let start = match self.parse_term_expr() {
            Ok(e) => e,
            Err(e) => {
                return Err(e);
            },
        };
        if let TokenType::DotDot = self.current_token_type() {
        } else {
            return Ok(start);
        }
        self.next();
        let end = match self.parse_term_expr() {
            Ok(e) => e,
            Err(e) => {
                return Err(e);
            },
        };
        Ok(Expr::Range { start: Box::new(start), end: Box::new(end) })
    }

    /// Reads a sum.
    fn parse_term_expr(&mut self) -> (r: Result<Expr, ParseError>)
        requires
            old(self).wf(),
        ensures
            final(self).wf(),
            final(self).tokens() == old(self).tokens(),
            r matches Err(e) ==> e.kind != ParseErrorKind::NoProgress,
            r is Ok ==> advanced(old(self).tokens(), old(self).cursor(), final(self).cursor()),
            expr_parsed(r, final(self).cursor()) == parse_term_expr(
                old(self).tokens(),
                old(self).cursor(),
            ),
        decreases old(self).tokens().len() - old(self).cursor(), 5nat, 1nat,
    {
        reveal(parse_rule);
        let ghost ts = self.tokens();
        let ghost begin = self.cursor();
        let mut expr = match self.parse_factor_expr() {
            Ok(e) => e,
            Err(e) => {
                return Err(e);
            },
        };
        loop
            invariant
                self.wf(),
                self.tokens() == ts,
                ts == old(self).tokens(),
                begin == old(self).cursor(),
                advanced(ts, begin, self.cursor()),
                parse_term_rest(ts, self.cursor(), expr@) == parse_term_expr(ts, begin),
            decreases ts.len() - self.cursor(),
        {
            reveal(parse_rule);
            let op = match self.current_token_type() {
                TokenType::Plus => TermOp::Plus,
                TokenType::Minus => TermOp::Minus,
                _ => {
                    return Ok(expr);
                },
            };
            self.next();
            let right = match self.parse_factor_expr() {
                Ok(e) => e,
                Err(e) => {
                    return Err(e);
                },
            };
            expr = Expr::Term { left: Box::new(expr), op, right: Box::new(right) };
        }
    }

    /// Reads a product.
    fn parse_factor_expr(&mut self) -> (r: Result<Expr, ParseError>)
        requires
            old(self).wf(),
        ensures
            final(self).wf(),
            final(self).tokens() == old(self).tokens(),
            r matches Err(e) ==> e.kind != ParseErrorKind::NoProgress,
            r is Ok ==> advanced(old(self).tokens(), old(self).cursor(), final(self).cursor()),
            expr_parsed(r, final(self).cursor()) == parse_factor_expr(
                old(self).tokens(),
                old(self).cursor(),
            ),
        decreases old(self).tokens().len() - old(self).cursor(), 4nat, 1nat,
    {
        reveal(parse_rule);
        let ghost ts = self.tokens();
        let ghost begin = self.cursor();
        let mut expr = match self.parse_unary_expr() {
            Ok(e) => e,
            Err(e) => {
                return Err(e);
            },
        };
        loop
            invariant
                self.wf(),
                self.tokens() == ts,
                ts == old(self).tokens(),
                begin == old(self).cursor(),
                advanced(ts, begin, self.cursor()),
                parse_factor_rest(ts, self.cursor(), expr@) == parse_factor_expr(ts, begin),
            decreases ts.len() - self.cursor(),
        {
            reveal(parse_rule);
            let op = match self.current_token_type() {
                TokenType::Asterisk => FactorOp::Multiply,
                TokenType::Slash => FactorOp::Divide,
                TokenType::Percent => FactorOp::Modulus,
                _ => {
                    return Ok(expr);
                },
            };
            self.next();
            let right = match self.parse_unary_expr() {
                Ok(e) => e,
                Err(e) => {
                    return Err(e);
                },
            };
            expr = Expr::Factor { left: Box::new(expr), op, right: Box::new(right) };
        }
    }

    /// Reads a primary expression after any number of `-` and `not`.
    fn parse_unary_expr(&mut self) -> (r: Result<Expr, ParseError>)
        requires
            old(self).wf(),
        ensures
            final(self).wf(),
            final(self).tokens() == old(self).tokens(),
            r matches Err(e) ==> e.kind != ParseErrorKind::NoProgress,
            r is Ok ==> advanced(old(self).tokens(), old(self).cursor(), final(self).cursor()),
            expr_parsed(r, final(self).cursor()) == parse_unary_expr(
                old(self).tokens(),
                old(self).cursor(),
            ),
        decreases old(self).tokens().len() - old(self).cursor(), 3nat, 1nat,
    {
        reveal(parse_rule);
        let op = match self.current_token_type() {
            TokenType::Minus => UnaryOp::Minus,
            TokenType::Not => UnaryOp::Not,
            _ => {
                return self.parse_primary_expr();
            },
        };
        self.next();
        match self.parse_unary_expr() {
            Ok(right) => Ok(Expr::Unary { op, right: Box::new(right) }),
            Err(e) => Err(e),
        }
    }

    /// Reads a primary expression.
    fn parse_primary_expr(&mut self) -> (r: Result<Expr, ParseError>)
        requires
            old(self).wf(),
        ensures
            final(self).wf(),
            final(self).tokens() == old(self).tokens(),
            r matches Err(e) ==> e.kind != ParseErrorKind::NoProgress,
            r is Ok ==> advanced(old(self).tokens(), old(self).cursor(), final(self).cursor()),
            expr_parsed(r, final(self).cursor()) == parse_primary_expr(
                old(self).tokens(),
                old(self).cursor(),
            ),
        decreases old(self).tokens().len() - old(self).cursor(), 2nat, 1nat,
    {
        match self.current_token_type() {
            TokenType::Identifier(id) => {
                reveal(parse_rule);
                let base = Expr::Identifier(id.clone());
                self.next();
                self.parse_postfix(base)
            },
            TokenType::Number(n) => {
                reveal(parse_rule);
                let e = Expr::Number(n.clone());
                self.next();
                Ok(e)
            },
            TokenType::String(s) => {
                reveal(parse_rule);
                let e = Expr::String(s.clone());
                self.next();
                Ok(e)
            },
            TokenType::True => {
                reveal(parse_rule);
                self.next();
                Ok(Expr::Boolean(true))
            },
            TokenType::False => {
                reveal(parse_rule);
                self.next();
                Ok(Expr::Boolean(false))
            },
            TokenType::LeftParen => self.parse_group(),
            TokenType::LeftBracket => self.parse_list(),
            TokenType::LeftBrace => self.parse_record(),
            _ => {
                reveal(parse_rule);
                Err(self.error(ParseErrorKind::UnexpectedToken))
            },
        }
    }

    /// Reads an expression in parentheses.
    fn parse_group(&mut self) -> (r: Result<Expr, ParseError>)
        requires
            old(self).wf(),
            kind_at(old(self).tokens(), old(self).cursor()) is LeftParen,
        ensures
            final(self).wf(),
            final(self).tokens() == old(self).tokens(),
            r matches Err(e) ==> e.kind != ParseErrorKind::NoProgress,
            r is Ok ==> advanced(old(self).tokens(), old(self).cursor(), final(self).cursor()),
            expr_parsed(r, final(self).cursor()) == parse_primary_expr(
                old(self).tokens(),
                old(self).cursor(),
            ),
        decreases old(self).tokens().len() - old(self).cursor(), 2nat, 0nat,
    {
        reveal(parse_rule);
        self.next();
        let expr = match self.parse_expr() {
            Ok(e) => e,
            Err(e) => {
                return Err(e);
            },
        };
        if let TokenType::RightParen = self.current_token_type() {
        } else {
            return Err(self.error(ParseErrorKind::ExpectedRightParen));
        }
        self.next();
        Ok(expr)
    }

    /// Reads a list in brackets.
    fn parse_list(&mut self) -> (r: Result<Expr, ParseError>)
        requires
            old(self).wf(),
            kind_at(old(self).tokens(), old(self).cursor()) is LeftBracket,
        ensures
            final(self).wf(),
            final(self).tokens() == old(self).tokens(),
            r matches Err(e) ==> e.kind != ParseErrorKind::NoProgress,
            r is Ok ==> advanced(old(self).tokens(), old(self).cursor(), final(self).cursor()),
            expr_parsed(r, final(self).cursor()) == parse_primary_expr(
                old(self).tokens(),
                old(self).cursor(),
            ),
        decreases old(self).tokens().len() - old(self).cursor(), 2nat, 0nat,
    {
        reveal(parse_rule);
        self.next();
        let elements = match self.parse_items(false) {
            Ok(v) => v,
            Err(e) => {
                return Err(e);
            },
        };
        if let TokenType::RightBracket = self.current_token_type() {
        } else {
            return Err(self.error(ParseErrorKind::ExpectedRightBracket));
        }
        self.next();
        Ok(Expr::List(elements))
    }

    /// Reads a record in braces.
    fn parse_record(&mut self) -> (r: Result<Expr, ParseError>)
        requires
            old(self).wf(),
            kind_at(old(self).tokens(), old(self).cursor()) is LeftBrace,
        ensures
            final(self).wf(),
            final(self).tokens() == old(self).tokens(),
            r matches Err(e) ==> e.kind != ParseErrorKind::NoProgress,
            r is Ok ==> advanced(old(self).tokens(), old(self).cursor(), final(self).cursor()),
            expr_parsed(r, final(self).cursor()) == parse_primary_expr(
                old(self).tokens(),
                old(self).cursor(),
            ),
        decreases old(self).tokens().len() - old(self).cursor(), 2nat, 0nat,
    {
        reveal(parse_rule);
        self.next();
        let fields = match self.parse_fields() {
            Ok(v) => v,
            Err(e) => {
                return Err(e);
            },
        };
        if let TokenType::RightBrace = self.current_token_type() {
        } else {
            return Err(self.error(ParseErrorKind::ExpectedRightBrace));
        }
        self.next();
        Ok(Expr::Record(fields))
    }

    /// Reads an index or a slice in brackets after `base`.
    fn parse_subscript(&mut self, base: Expr) -> (r: Result<Expr, ParseError>)
        requires
            old(self).wf(),
            old(self).cursor() > 0,
            kind_at(old(self).tokens(), old(self).cursor()) is LeftBracket,
        ensures
            final(self).wf(),
            final(self).tokens() == old(self).tokens(),
            r matches Err(e) ==> e.kind != ParseErrorKind::NoProgress,
            r is Ok ==> advanced(old(self).tokens(), old(self).cursor(), final(self).cursor()),
            match r {
                Ok(e) => parse_postfix(old(self).tokens(), old(self).cursor(), base@) == parse_postfix(
                    old(self).tokens(),
                    final(self).cursor(),
                    e@,
                ),
                Err(e) => parse_postfix(old(self).tokens(), old(self).cursor(), base@) == Err::<
                    (SpecExpr, int),
                    SpecParseError,
                >(e@),
            },
        decreases old(self).tokens().len() - old(self).cursor(), 12nat, 0nat,
    {
        reveal(parse_rule);
        self.next();
        let (start, has_dots, end) = match self.parse_bracket() {
            Ok(b) => b,
            Err(e) => {
                return Err(e);
            },
        };
        if let TokenType::RightBracket = self.current_token_type() {
        } else {
            return Err(self.error(ParseErrorKind::ExpectedRightBracket));
        }
        self.next();
        if has_dots {
            if start.is_none() && end.is_none() {
                return Err(self.error(ParseErrorKind::ExpectedSliceBound));
            }
            Ok(Expr::Slice { list: Box::new(base), start, end })
        } else {
            match start {
                Some(index) => Ok(Expr::Index { list: Box::new(base), index }),
                None => Err(self.error(ParseErrorKind::ExpectedIndex)),
            }
        }
    }

    /// Reads arguments in parentheses after `base`.
    fn parse_call(&mut self, base: Expr) -> (r: Result<Expr, ParseError>)
        requires
            old(self).wf(),
            old(self).cursor() > 0,
            kind_at(old(self).tokens(), old(self).cursor()) is LeftParen,
        ensures
            final(self).wf(),
            final(self).tokens() == old(self).tokens(),
            r matches Err(e) ==> e.kind != ParseErrorKind::NoProgress,
            r is Ok ==> advanced(old(self).tokens(), old(self).cursor(), final(self).cursor()),
            match r {
                Ok(e) => parse_postfix(old(self).tokens(), old(self).cursor(), base@) == parse_postfix(
                    old(self).tokens(),
                    final(self).cursor(),
                    e@,
                ),
                Err(e) => parse_postfix(old(self).tokens(), old(self).cursor(), base@) == Err::<
                    (SpecExpr, int),
                    SpecParseError,
                >(e@),
            },
        decreases old(self).tokens().len() - old(self).cursor(), 12nat, 0nat,
    {
        reveal(parse_rule);
        self.next();
        let args = match self.parse_items(true) {
            Ok(v) => v,
            Err(e) => {
                return Err(e);
            },
        };
        if let TokenType::RightParen = self.current_token_type() {
        } else {
            return Err(self.error(ParseErrorKind::ExpectedRightParen));
        }
        self.next();
        Ok(Expr::Call { name: Box::new(base), args })
    }

    /// Reads `.` and the name of a field after `base`.
    fn parse_access(&mut self, base: Expr) -> (r: Result<Expr, ParseError>)
        requires
            old(self).wf(),
            old(self).cursor() > 0,
            kind_at(old(self).tokens(), old(self).cursor()) is Dot,
        ensures
            final(self).wf(),
            final(self).tokens() == old(self).tokens(),
            r matches Err(e) ==> e.kind != ParseErrorKind::NoProgress,
            r is Ok ==> advanced(old(self).tokens(), old(self).cursor(), final(self).cursor()),
            match r {
                Ok(e) => parse_postfix(old(self).tokens(), old(self).cursor(), base@) == parse_postfix(
                    old(self).tokens(),
                    final(self).cursor(),
                    e@,
                ),
                Err(e) => parse_postfix(old(self).tokens(), old(self).cursor(), base@) == Err::<
                    (SpecExpr, int),
                    SpecParseError,
                >(e@),
            },
    {
        reveal(parse_rule);
        self.next();
        let field = match self.current_token_type() {
            TokenType::Identifier(field_name) => field_name.clone(),
            _ => {
                return Err(self.error(ParseErrorKind::ExpectedFieldAfterDot));
            },
        };
        self.next();
        Ok(Expr::Access { record: Box::new(base), field })
    }

    /// Reads what follows a name: indexes, slices, arguments and fields, any number of them.
    fn parse_postfix(&mut self, base: Expr) -> (r: Result<Expr, ParseError>)
        requires
            old(self).wf(),
            old(self).cursor() > 0,
        ensures
            final(self).wf(),
            final(self).tokens() == old(self).tokens(),
            r matches Err(e) ==> e.kind != ParseErrorKind::NoProgress,
            r is Ok ==> old(self).cursor() <= final(self).cursor() <= final(self).tokens().len(),
            expr_parsed(r, final(self).cursor()) == parse_postfix(
                old(self).tokens(),
                old(self).cursor(),
                base@,
            ),
        decreases old(self).tokens().len() - old(self).cursor(), 12nat, 1nat,
    {
        let ghost ts = self.tokens();
        let ghost begin = self.cursor();
        let ghost first = base@;
        let mut expr = base;
        loop
            invariant
                self.wf(),
                self.tokens() == ts,
                ts == old(self).tokens(),
                begin == old(self).cursor(),
                first == base@,
                0 < begin <= self.cursor() <= ts.len(),
                parse_postfix(ts, self.cursor(), expr@) == parse_postfix(ts, begin, first),
            decreases ts.len() - self.cursor(),
        {
            let step = match self.current_token_type() {
                TokenType::LeftBracket => self.parse_subscript(expr),
                TokenType::LeftParen => self.parse_call(expr),
                TokenType::Dot => self.parse_access(expr),
                _ => {
                    reveal(parse_rule);
                    return Ok(expr);
                },
            };
            match step {
                Ok(e) => {
                    expr = e;
                },
                Err(e) => {
                    return Err(e);
                },
            }
        }
    }

    /// Reads what stands inside brackets after a name, up to the `]`.
    fn parse_bracket(&mut self) -> (r: Result<(Option<Box<Expr>>, bool, Option<Box<Expr>>), ParseError>)
        requires
            old(self).wf(),
            old(self).cursor() > 0,
        ensures
            final(self).wf(),
            final(self).tokens() == old(self).tokens(),
            r matches Err(e) ==> e.kind != ParseErrorKind::NoProgress,
            r is Ok ==> old(self).cursor() <= final(self).cursor() <= final(self).tokens().len(),
            match r {
                Ok(b) => parse_bracket(
                    old(self).tokens(),
                    old(self).cursor(),
                    Bracket { start: None, has_dots: false, end: None },
                ) == Ok::<(Bracket, int), SpecParseError>(
                    (
                        Bracket { start: unboxed(opt_view(b.0)), has_dots: b.1, end: unboxed(opt_view(b.2)) },
                        final(self).cursor(),
                    ),
                ),
                Err(e) => parse_bracket(
                    old(self).tokens(),
                    old(self).cursor(),
                    Bracket { start: None, has_dots: false, end: None },
                ) == Err::<(Bracket, int), SpecParseError>(e@),
            },
        decreases old(self).tokens().len() - old(self).cursor(), 11nat, 1nat,
    {
        reveal(parse_rule);
        let ghost ts = self.tokens();
        let ghost begin = self.cursor();
        let mut start: Option<Box<Expr>> = None;
        let mut has_dots = false;
        let mut end: Option<Box<Expr>> = None;
        loop
            invariant
                self.wf(),
                self.tokens() == ts,
                ts == old(self).tokens(),
                begin == old(self).cursor(),
                0 < begin <= self.cursor() <= ts.len(),
                parse_bracket(
                    ts,
                    self.cursor(),
                    Bracket { start: unboxed(opt_view(start)), has_dots, end: unboxed(opt_view(end)) },
                ) == parse_bracket(ts, begin, Bracket { start: None, has_dots: false, end: None }),
            decreases ts.len() - self.cursor(),
        {
            reveal(parse_rule);
            match self.current_token_type() {
                TokenType::RightBracket => {
                    return Ok((start, has_dots, end));
                },
                TokenType::DotDot => {
                    has_dots = true;
                    self.next();
                },
                _ => {
                    let e = match self.parse_primary_expr() {
                        Ok(e) => e,
                        Err(e) => {
                            return Err(e);
                        },
                    };
                    if has_dots {
                        end = Some(Box::new(e));
                    } else {
                        start = Some(Box::new(e));
                    }
                },
            }
        }
    }

    /// Reads expressions with commas between them: arguments up to a `)`, or items up to a `]`.
    fn parse_items(&mut self, arguments: bool) -> (r: Result<Vec<Expr>, ParseError>)
        requires
            old(self).wf(),
            old(self).cursor() > 0,
        ensures
            final(self).wf(),
            final(self).tokens() == old(self).tokens(),
            r matches Err(e) ==> e.kind != ParseErrorKind::NoProgress,
            r is Ok ==> old(self).cursor() <= final(self).cursor() <= final(self).tokens().len(),
            match r {
                Ok(items) => parse_items(
                    old(self).tokens(),
                    old(self).cursor(),
                    closing(arguments),
                    Seq::empty(),
                ) == Ok::<(Seq<SpecExpr>, int), SpecParseError>((exprs_view(items@), final(self).cursor())),
                Err(e) => parse_items(
                    old(self).tokens(),
                    old(self).cursor(),
                    closing(arguments),
                    Seq::empty(),
                ) == Err::<(Seq<SpecExpr>, int), SpecParseError>(e@),
            },
        decreases old(self).tokens().len() - old(self).cursor(), 11nat, 1nat,
    {
        reveal(parse_rule);
        let ghost ts = self.tokens();
        let ghost begin = self.cursor();
        let mut items: Vec<Expr> = Vec::new();
        assert(exprs_view(items@) =~= Seq::empty());
        loop
            invariant
                self.wf(),
                self.tokens() == ts,
                ts == old(self).tokens(),
                begin == old(self).cursor(),
                0 < begin <= self.cursor() <= ts.len(),
                parse_items(ts, self.cursor(), closing(arguments), exprs_view(items@)) == parse_items(
                    ts,
                    begin,
                    closing(arguments),
                    Seq::empty(),
                ),
            decreases ts.len() - self.cursor(),
        {
            reveal(parse_rule);
            let at_end = match self.current_token_type() {
                TokenType::RightParen => arguments,
                TokenType::RightBracket => !arguments,
                _ => false,
            };
            if at_end {
                return Ok(items);
            }
            let e = match self.parse_expr() {
                Ok(e) => e,
                Err(e) => {
                    return Err(e);
                },
            };
            proof {
                lemma_exprs_push(items@, items@.push(e), e);
            }
            items.push(e);
            if let TokenType::Comma = self.current_token_type() {
                self.next();
            } else {
                return Ok(items);
            }
        }
    }

    /// Reads one field of a record, after those read so far.
    fn parse_field(&mut self, Ghost(so_far): Ghost<Seq<(Seq<char>, SpecExpr)>>) -> (r: Result<
        (String, Expr),
        ParseError,
    >)
        requires
            old(self).wf(),
            old(self).cursor() > 0,
            !(kind_at(old(self).tokens(), old(self).cursor()) is RightBrace),
        ensures
            final(self).wf(),
            final(self).tokens() == old(self).tokens(),
            r matches Err(e) ==> e.kind != ParseErrorKind::NoProgress,
            r is Ok ==> advanced(old(self).tokens(), old(self).cursor(), final(self).cursor()),
            match r {
                Ok(f) => parse_fields(old(self).tokens(), old(self).cursor(), so_far) == if kind_at(
                    old(self).tokens(),
                    final(self).cursor(),
                ) is Comma {
                    parse_fields(old(self).tokens(), final(self).cursor() + 1, so_far.push((f.0@, f.1@)))
                } else {
                    Ok::<(Seq<(Seq<char>, SpecExpr)>, int), SpecParseError>(
                        (so_far.push((f.0@, f.1@)), final(self).cursor()),
                    )
                },
                Err(e) => parse_fields(old(self).tokens(), old(self).cursor(), so_far) == Err::<
                    (Seq<(Seq<char>, SpecExpr)>, int),
                    SpecParseError,
                >(e@),
            },
        decreases old(self).tokens().len() - old(self).cursor(), 11nat, 0nat,
    {
        reveal(parse_rule);
        let name = match self.current_token_type() {
            TokenType::Identifier(field_name) => field_name.clone(),
            _ => {
                return Err(self.error(ParseErrorKind::ExpectedFieldName));
            },
        };
        self.next();
        if let TokenType::Colon = self.current_token_type() {
        } else {
            return Err(self.error(ParseErrorKind::ExpectedColon));
        }
        self.next();
        match self.parse_expr() {
            Ok(value) => Ok((name, value)),
            Err(e) => Err(e),
        }
    }

    /// Reads the fields of a record.
    fn parse_fields(&mut self) -> (r: Result<Vec<(String, Expr)>, ParseError>)
        requires
            old(self).wf(),
            old(self).cursor() > 0,
        ensures
            final(self).wf(),
            final(self).tokens() == old(self).tokens(),
            r matches Err(e) ==> e.kind != ParseErrorKind::NoProgress,
            r is Ok ==> old(self).cursor() <= final(self).cursor() <= final(self).tokens().len(),
            match r {
                Ok(fields) => parse_fields(old(self).tokens(), old(self).cursor(), Seq::empty()) == Ok::<
                    (Seq<(Seq<char>, SpecExpr)>, int),
                    SpecParseError,
                >((fields_view(fields@), final(self).cursor())),
                Err(e) => parse_fields(old(self).tokens(), old(self).cursor(), Seq::empty()) == Err::<
                    (Seq<(Seq<char>, SpecExpr)>, int),
                    SpecParseError,
                >(e@),
            },
        decreases old(self).tokens().len() - old(self).cursor(), 11nat, 1nat,
    {
        let ghost ts = self.tokens();
        let ghost begin = self.cursor();
        let mut fields: Vec<(String, Expr)> = Vec::new();
        assert(fields_view(fields@) =~= Seq::empty());
        loop
            invariant
                self.wf(),
                self.tokens() == ts,
                ts == old(self).tokens(),
                begin == old(self).cursor(),
                0 < begin <= self.cursor() <= ts.len(),
                parse_fields(ts, self.cursor(), fields_view(fields@)) == parse_fields(
                    ts,
                    begin,
                    Seq::empty(),
                ),
            decreases ts.len() - self.cursor(),
        {
            if let TokenType::RightBrace = self.current_token_type() {
                reveal(parse_rule);
                return Ok(fields);
            }
            let ghost before = fields_view(fields@);
            match self.parse_field(Ghost(before)) {
                Ok(field) => {
                    let ghost n = field.0@;
                    let ghost v = field.1@;
                    fields.push(field);
                    assert(fields_view(fields@) =~= before.push((n, v)));
                },
                Err(e) => {
                    return Err(e);
                },
            }
            if let TokenType::Comma = self.current_token_type() {
                self.next();
            } else {
                return Ok(fields);
            }
        }
    }
}

/// The token that ends a list of arguments, or else a list of items.
pub open spec fn closing(arguments: bool) -> SpecTokenType {
    if arguments {
        SpecTokenType::RightParen
    } else {
        SpecTokenType::RightBracket
    }
}

/// What a box holds, if there is one.
pub open spec fn unboxed(e: Option<Box<SpecExpr>>) -> Option<SpecExpr> {
    match e {
        Some(b) => Some(*b),
        None => None,
    }
}

} // verus!
