use crate::ast::{CompOp, FactorOp, LogicOp, SpecCase, SpecExpr, SpecPattern, SpecStmt, TermOp, UnaryOp};
use crate::parser::error::{ParseErrorKind, SpecParseError};
use crate::token::{SpecToken, SpecTokenType};
use vstd::prelude::*;

verus! {

/// The kind of the token at index `pos`; beyond the last token, `EOF`.
pub open spec fn kind_at(ts: Seq<SpecToken>, pos: int) -> SpecTokenType {
    if 0 <= pos < ts.len() {
        ts[pos].token_type
    } else {
        SpecTokenType::EOF
    }
}

/// The failure of kind `kind` at index `pos`.
pub open spec fn fail_at(ts: Seq<SpecToken>, pos: int, kind: ParseErrorKind) -> SpecParseError {
    SpecParseError { kind, position: pos, found: kind_at(ts, pos) }
}

/// A parse that went on from `pos` to `next` took at least one token and stayed within them.
pub open spec fn advanced(ts: Seq<SpecToken>, pos: int, next: int) -> bool {
    0 <= pos < next <= ts.len()
}

/// The comparison operator that a token stands for, if it is one.
pub open spec fn comp_op(t: SpecTokenType) -> Option<CompOp> {
    match t {
        SpecTokenType::Equal => Some(CompOp::Equal),
        SpecTokenType::NotEqual => Some(CompOp::NotEqual),
        SpecTokenType::LessThan => Some(CompOp::LessThan),
        SpecTokenType::LessThanOrEqual => Some(CompOp::LessThanOrEqual),
        SpecTokenType::GreaterThan => Some(CompOp::GreaterThan),
        SpecTokenType::GreaterThanOrEqual => Some(CompOp::GreaterThanOrEqual),
        _ => None,
    }
}

/// The pattern that a token stands for, if it is one.
pub open spec fn pattern_of(t: SpecTokenType) -> Option<SpecPattern> {
    match t {
        SpecTokenType::Number(n) => Some(SpecPattern::Number(n)),
        SpecTokenType::String(s) => Some(SpecPattern::String(s)),
        SpecTokenType::True => Some(SpecPattern::Boolean(true)),
        SpecTokenType::False => Some(SpecPattern::Boolean(false)),
        SpecTokenType::Underscore => Some(SpecPattern::Wildcard),
        _ => None,
    }
}

/// What is read inside the brackets of an index or a slice.
pub struct Bracket {
    pub start: Option<SpecExpr>,
    pub has_dots: bool,
    pub end: Option<SpecExpr>,
}

/// What the parser is reading: a part of the grammar, with what it carries along.
pub enum Rule {
    Program(Seq<SpecStmt>),
    Statement,
    Expr,
    Cases(Seq<SpecCase>),
    Params(Seq<Seq<char>>),
    Pipe,
    PipeRest(SpecExpr),
    Logic,
    Comp,
    Range,
    Term,
    TermRest(SpecExpr),
    Factor,
    FactorRest(SpecExpr),
    Unary,
    Primary,
    Postfix(SpecExpr),
    Bracket(Bracket),
    Items(SpecTokenType, Seq<SpecExpr>),
    Fields(Seq<(Seq<char>, SpecExpr)>),
}

/// What the parser has read.
pub enum Parsed {
    Stmts(Seq<SpecStmt>),
    Stmt(SpecStmt),
    Expr(SpecExpr),
    Cases(Seq<SpecCase>),
    Params(Seq<Seq<char>>),
    Bracket(Bracket),
    Exprs(Seq<SpecExpr>),
    Fields(Seq<(Seq<char>, SpecExpr)>),
}

/// The order in which the parts of the grammar call each other without taking a token.
pub open spec fn rank(rule: Rule) -> nat {
    match rule {
        Rule::Program(..) => 20nat,
        Rule::Statement => 19nat,
        Rule::Expr => 10nat,
        Rule::Cases(..) => 11nat,
        Rule::Params(..) => 11nat,
        Rule::Pipe => 9nat,
        Rule::PipeRest(..) => 9nat,
        Rule::Logic => 8nat,
        Rule::Comp => 7nat,
        Rule::Range => 6nat,
        Rule::Term => 5nat,
        Rule::TermRest(..) => 5nat,
        Rule::Factor => 4nat,
        Rule::FactorRest(..) => 4nat,
        Rule::Unary => 3nat,
        Rule::Primary => 2nat,
        Rule::Postfix(..) => 12nat,
        Rule::Bracket(..) => 11nat,
        Rule::Items(..) => 11nat,
        Rule::Fields(..) => 11nat,
    }
}

/// What was read, where it is statements.
pub open spec fn lift_stmts(r: Result<Seq<SpecStmt>, SpecParseError>) -> Result<(Parsed, int), SpecParseError> {
    match r {
        Ok(x) => Ok((Parsed::Stmts(x), 0)),
        Err(e) => Err(e),
    }
}

/// What was read as statements; anything else is a failure.
pub open spec fn as_stmts(r: Result<(Parsed, int), SpecParseError>) -> Result<Seq<SpecStmt>, SpecParseError> {
    match r {
        Ok((Parsed::Stmts(x), next)) => Ok(x),
        Ok((_, next)) => Err(SpecParseError { kind: ParseErrorKind::NoProgress, position: next, found: SpecTokenType::EOF }),
        Err(e) => Err(e),
    }
}

/// What was read, where it is a statement.
pub open spec fn lift_stmt(r: Result<(SpecStmt, int), SpecParseError>) -> Result<(Parsed, int), SpecParseError> {
    match r {
        Ok((x, next)) => Ok((Parsed::Stmt(x), next)),
        Err(e) => Err(e),
    }
}

/// What was read as a statement; anything else is a failure.
pub open spec fn as_stmt(r: Result<(Parsed, int), SpecParseError>) -> Result<(SpecStmt, int), SpecParseError> {
    match r {
        Ok((Parsed::Stmt(x), next)) => Ok((x, next)),
        Ok((_, next)) => Err(SpecParseError { kind: ParseErrorKind::NoProgress, position: next, found: SpecTokenType::EOF }),
        Err(e) => Err(e),
    }
}

/// What was read, where it is an expression.
pub open spec fn lift_expr(r: Result<(SpecExpr, int), SpecParseError>) -> Result<(Parsed, int), SpecParseError> {
    match r {
        Ok((x, next)) => Ok((Parsed::Expr(x), next)),
        Err(e) => Err(e),
    }
}

/// What was read as an expression; anything else is a failure.
pub open spec fn as_expr(r: Result<(Parsed, int), SpecParseError>) -> Result<(SpecExpr, int), SpecParseError> {
    match r {
        Ok((Parsed::Expr(x), next)) => Ok((x, next)),
        Ok((_, next)) => Err(SpecParseError { kind: ParseErrorKind::NoProgress, position: next, found: SpecTokenType::EOF }),
        Err(e) => Err(e),
    }
}

/// What was read, where it is cases.
pub open spec fn lift_cases(r: Result<(Seq<SpecCase>, int), SpecParseError>) -> Result<(Parsed, int), SpecParseError> {
    match r {
        Ok((x, next)) => Ok((Parsed::Cases(x), next)),
        Err(e) => Err(e),
    }
}

/// What was read as cases; anything else is a failure.
pub open spec fn as_cases(r: Result<(Parsed, int), SpecParseError>) -> Result<(Seq<SpecCase>, int), SpecParseError> {
    match r {
        Ok((Parsed::Cases(x), next)) => Ok((x, next)),
        Ok((_, next)) => Err(SpecParseError { kind: ParseErrorKind::NoProgress, position: next, found: SpecTokenType::EOF }),
        Err(e) => Err(e),
    }
}

/// What was read, where it is parameters.
pub open spec fn lift_params(r: Result<(Seq<Seq<char>>, int), SpecParseError>) -> Result<(Parsed, int), SpecParseError> {
    match r {
        Ok((x, next)) => Ok((Parsed::Params(x), next)),
        Err(e) => Err(e),
    }
}

/// What was read as parameters; anything else is a failure.
pub open spec fn as_params(r: Result<(Parsed, int), SpecParseError>) -> Result<(Seq<Seq<char>>, int), SpecParseError> {
    match r {
        Ok((Parsed::Params(x), next)) => Ok((x, next)),
        Ok((_, next)) => Err(SpecParseError { kind: ParseErrorKind::NoProgress, position: next, found: SpecTokenType::EOF }),
        Err(e) => Err(e),
    }
}

/// What was read, where it is the inside of brackets.
pub open spec fn lift_bracket(r: Result<(Bracket, int), SpecParseError>) -> Result<(Parsed, int), SpecParseError> {
    match r {
        Ok((x, next)) => Ok((Parsed::Bracket(x), next)),
        Err(e) => Err(e),
    }
}

/// What was read as the inside of brackets; anything else is a failure.
pub open spec fn as_bracket(r: Result<(Parsed, int), SpecParseError>) -> Result<(Bracket, int), SpecParseError> {
    match r {
        Ok((Parsed::Bracket(x), next)) => Ok((x, next)),
        Ok((_, next)) => Err(SpecParseError { kind: ParseErrorKind::NoProgress, position: next, found: SpecTokenType::EOF }),
        Err(e) => Err(e),
    }
}

/// What was read, where it is expressions.
pub open spec fn lift_exprs(r: Result<(Seq<SpecExpr>, int), SpecParseError>) -> Result<(Parsed, int), SpecParseError> {
    match r {
        Ok((x, next)) => Ok((Parsed::Exprs(x), next)),
        Err(e) => Err(e),
    }
}

/// What was read as expressions; anything else is a failure.
pub open spec fn as_exprs(r: Result<(Parsed, int), SpecParseError>) -> Result<(Seq<SpecExpr>, int), SpecParseError> {
    match r {
        Ok((Parsed::Exprs(x), next)) => Ok((x, next)),
        Ok((_, next)) => Err(SpecParseError { kind: ParseErrorKind::NoProgress, position: next, found: SpecTokenType::EOF }),
        Err(e) => Err(e),
    }
}

/// What was read, where it is fields.
pub open spec fn lift_fields(r: Result<(Seq<(Seq<char>, SpecExpr)>, int), SpecParseError>) -> Result<(Parsed, int), SpecParseError> {
    match r {
        Ok((x, next)) => Ok((Parsed::Fields(x), next)),
        Err(e) => Err(e),
    }
}

/// What was read as fields; anything else is a failure.
pub open spec fn as_fields(r: Result<(Parsed, int), SpecParseError>) -> Result<(Seq<(Seq<char>, SpecExpr)>, int), SpecParseError> {
    match r {
        Ok((Parsed::Fields(x), next)) => Ok((x, next)),
        Ok((_, next)) => Err(SpecParseError { kind: ParseErrorKind::NoProgress, position: next, found: SpecTokenType::EOF }),
        Err(e) => Err(e),
    }
}

/// The grammar: what reading `rule` from index `pos` on gives, and the index it goes on to.
///
/// Each part reads its operands with the part that binds tighter, so that `*` binds tighter
/// than `+`, `+` tighter than `..`, and so on up to `|>`.
#[verifier::opaque]
pub open spec fn parse_rule(ts: Seq<SpecToken>, pos: int, rule: Rule) -> Result<(Parsed, int), SpecParseError>
    decreases ts.len() - pos, rank(rule),
{
    match rule {
        Rule::Program(so_far) => lift_stmts({
            if kind_at(ts, pos) is EOF {
                Ok(so_far)
            } else {
                match as_stmt(parse_rule(ts, pos, Rule::Statement)) {
                    Err(e) => Err(e),
                    Ok((stmt, n1)) => if !advanced(ts, pos, n1) {
                        Err(fail_at(ts, pos, ParseErrorKind::NoProgress))
                    } else {
                        as_stmts(parse_rule(ts, n1, Rule::Program(so_far.push(stmt))))
                    },
                }
            }
        }),
        Rule::Statement => lift_stmt({
            if kind_at(ts, pos) is Let {
                match kind_at(ts, pos + 1) {
                    SpecTokenType::Identifier(name) => if kind_at(ts, pos + 2) is Assign {
                        match as_expr(parse_rule(ts, pos + 3, Rule::Expr)) {
                            Err(e) => Err(e),
                            Ok((val, n1)) => Ok((SpecStmt::Let { name, val }, n1)),
                        }
                    } else {
                        Err(fail_at(ts, pos + 2, ParseErrorKind::ExpectedAssign))
                    },
                    _ => Err(fail_at(ts, pos + 1, ParseErrorKind::ExpectedIdentifierAfterLet)),
                }
            } else {
                match as_expr(parse_rule(ts, pos, Rule::Expr)) {
                    Err(e) => Err(e),
                    Ok((e, n1)) => Ok((SpecStmt::Expr(e), n1)),
                }
            }
        }),
        Rule::Expr => lift_expr({
            match kind_at(ts, pos) {
                SpecTokenType::If => match as_expr(parse_rule(ts, pos + 1, Rule::Expr)) {
                    Err(e) => Err(e),
                    Ok((cond, n1)) => if !advanced(ts, pos, n1) {
                        Err(fail_at(ts, pos, ParseErrorKind::NoProgress))
                    } else if !(kind_at(ts, n1) is Then) {
                        Err(fail_at(ts, n1, ParseErrorKind::ExpectedThen))
                    } else {
                        match as_expr(parse_rule(ts, n1 + 1, Rule::Expr)) {
                            Err(e) => Err(e),
                            Ok((then, n2)) => if !advanced(ts, n1, n2) {
                                Err(fail_at(ts, n1, ParseErrorKind::NoProgress))
                            } else if !(kind_at(ts, n2) is Else) {
                                Err(fail_at(ts, n2, ParseErrorKind::ExpectedElse))
                            } else {
                                match as_expr(parse_rule(ts, n2 + 1, Rule::Expr)) {
                                    Err(e) => Err(e),
                                    Ok((else_, n3)) => Ok(
                                        (
                                            SpecExpr::If {
                                                cond: Box::new(cond),
                                                then: Box::new(then),
                                                else_: Box::new(else_),
                                            },
                                            n3,
                                        ),
                                    ),
                                }
                            },
                        }
                    },
                },
                SpecTokenType::Match => match as_expr(parse_rule(ts, pos + 1, Rule::Expr)) {
                    Err(e) => Err(e),
                    Ok((cond, n1)) => if !advanced(ts, pos, n1) {
                        Err(fail_at(ts, pos, ParseErrorKind::NoProgress))
                    } else {
                        match as_cases(parse_rule(ts, n1, Rule::Cases(Seq::empty()))) {
                            Err(e) => Err(e),
                            Ok((cases, n2)) => if cases.len() == 0 {
                                Err(fail_at(ts, n2, ParseErrorKind::ExpectedCase))
                            } else {
                                Ok((SpecExpr::Match { cond: Box::new(cond), cases }, n2))
                            },
                        }
                    },
                },
                SpecTokenType::Fn => {
                    let begin = if kind_at(ts, pos + 1) is Underscore {
                        pos + 2
                    } else {
                        pos + 1
                    };
                    match as_params(parse_rule(ts, begin, Rule::Params(Seq::empty()))) {
                        Err(e) => Err(e),
                        Ok((params, n1)) => if !(begin <= n1 <= ts.len()) {
                            Err(fail_at(ts, pos, ParseErrorKind::NoProgress))
                        } else if !(kind_at(ts, n1) is Arrow) {
                            Err(fail_at(ts, n1, ParseErrorKind::ExpectedArrowAfterParameters))
                        } else {
                            match as_expr(parse_rule(ts, n1 + 1, Rule::Expr)) {
                                Err(e) => Err(e),
                                Ok((body, n2)) => Ok((SpecExpr::Func { params, body: Box::new(body) }, n2)),
                            }
                        },
                    }
                },
                _ => as_expr(parse_rule(ts, pos, Rule::Pipe)),
            }
        }),
        Rule::Cases(so_far) => lift_cases({
            if kind_at(ts, pos) is Pipe {
                match pattern_of(kind_at(ts, pos + 1)) {
                    None => Err(fail_at(ts, pos + 1, ParseErrorKind::ExpectedPattern)),
                    Some(pattern) => if !(kind_at(ts, pos + 2) is Arrow) {
                        Err(fail_at(ts, pos + 2, ParseErrorKind::ExpectedArrowAfterPattern))
                    } else {
                        match as_expr(parse_rule(ts, pos + 3, Rule::Expr)) {
                            Err(e) => Err(e),
                            Ok((body, n1)) => if !advanced(ts, pos, n1) {
                                Err(fail_at(ts, pos, ParseErrorKind::NoProgress))
                            } else {
                                as_cases(parse_rule(ts, n1, Rule::Cases(so_far.push(SpecCase { pattern, body }))))
                            },
                        }
                    },
                }
            } else {
                Ok((so_far, pos))
            }
        }),
        Rule::Params(so_far) => lift_params({
            if kind_at(ts, pos) is Arrow {
                Ok((so_far, pos))
            } else {
                match kind_at(ts, pos) {
                    SpecTokenType::Identifier(id) => if kind_at(ts, pos + 1) is Comma {
                        as_params(parse_rule(ts, pos + 2, Rule::Params(so_far.push(id))))
                    } else {
                        Ok((so_far.push(id), pos + 1))
                    },
                    _ => Err(fail_at(ts, pos, ParseErrorKind::ExpectedParameter)),
                }
            }
        }),
        Rule::Pipe => lift_expr({
            match as_expr(parse_rule(ts, pos, Rule::Logic)) {
                Err(e) => Err(e),
                Ok((left, n1)) => if !advanced(ts, pos, n1) {
                    Err(fail_at(ts, pos, ParseErrorKind::NoProgress))
                } else {
                    as_expr(parse_rule(ts, n1, Rule::PipeRest(left)))
                },
            }
        }),
        Rule::PipeRest(left) => lift_expr({
            if kind_at(ts, pos) is ForwardPipe {
                match as_expr(parse_rule(ts, pos + 1, Rule::Logic)) {
                    Err(e) => Err(e),
                    Ok((right, n1)) => if !advanced(ts, pos, n1) {
                        Err(fail_at(ts, pos, ParseErrorKind::NoProgress))
                    } else {
                        as_expr(parse_rule(ts, n1, Rule::PipeRest(SpecExpr::Pipe { left: Box::new(left), right: Box::new(right) })))
                    },
                }
            } else {
                Ok((left, pos))
            }
        }),
        Rule::Logic => lift_expr({
            match as_expr(parse_rule(ts, pos, Rule::Comp)) {
                Err(e) => Err(e),
                Ok((left, n1)) => if !advanced(ts, pos, n1) {
                    Err(fail_at(ts, pos, ParseErrorKind::NoProgress))
                } else if kind_at(ts, n1) is And || kind_at(ts, n1) is Or {
                    let op = if kind_at(ts, n1) is And {
                        LogicOp::And
                    } else {
                        LogicOp::Or
                    };
                    match as_expr(parse_rule(ts, n1 + 1, Rule::Comp)) {
                        Err(e) => Err(e),
                        Ok((right, n2)) => Ok(
                            (SpecExpr::Logic { left: Box::new(left), op, right: Box::new(right) }, n2),
                        ),
                    }
                } else {
                    Ok((left, n1))
                },
            }
        }),
        Rule::Comp => lift_expr({
            match as_expr(parse_rule(ts, pos, Rule::Range)) {
                Err(e) => Err(e),
                Ok((left, n1)) => if !advanced(ts, pos, n1) {
                    Err(fail_at(ts, pos, ParseErrorKind::NoProgress))
                } else {
                    match comp_op(kind_at(ts, n1)) {
                        Some(op) => match as_expr(parse_rule(ts, n1 + 1, Rule::Range)) {
                            Err(e) => Err(e),
                            Ok((right, n2)) => Ok(
                                (SpecExpr::Comp { left: Box::new(left), op, right: Box::new(right) }, n2),
                            ),
                        },
                        None => Ok((left, n1)),
                    }
                },
            }
        }),
        Rule::Range => lift_expr({
            match as_expr(parse_rule(ts, pos, Rule::Term)) {
                Err(e) => Err(e),
                Ok((start, n1)) => if !advanced(ts, pos, n1) {
                    Err(fail_at(ts, pos, ParseErrorKind::NoProgress))
                } else if kind_at(ts, n1) is DotDot {
                    match as_expr(parse_rule(ts, n1 + 1, Rule::Term)) {
                        Err(e) => Err(e),
                        Ok((end, n2)) => Ok((SpecExpr::Range { start: Box::new(start), end: Box::new(end) }, n2)),
                    }
                } else {
                    Ok((start, n1))
                },
            }
        }),
        Rule::Term => lift_expr({
            match as_expr(parse_rule(ts, pos, Rule::Factor)) {
                Err(e) => Err(e),
                Ok((left, n1)) => if !advanced(ts, pos, n1) {
                    Err(fail_at(ts, pos, ParseErrorKind::NoProgress))
                } else {
                    as_expr(parse_rule(ts, n1, Rule::TermRest(left)))
                },
            }
        }),
        Rule::TermRest(left) => lift_expr({
            if kind_at(ts, pos) is Plus || kind_at(ts, pos) is Minus {
                let op = if kind_at(ts, pos) is Plus {
                    TermOp::Plus
                } else {
                    TermOp::Minus
                };
                match as_expr(parse_rule(ts, pos + 1, Rule::Factor)) {
                    Err(e) => Err(e),
                    Ok((right, n1)) => if !advanced(ts, pos, n1) {
                        Err(fail_at(ts, pos, ParseErrorKind::NoProgress))
                    } else {
                        as_expr(parse_rule(ts, n1, Rule::TermRest(SpecExpr::Term { left: Box::new(left), op, right: Box::new(right) })))
                    },
                }
            } else {
                Ok((left, pos))
            }
        }),
        Rule::Factor => lift_expr({
            match as_expr(parse_rule(ts, pos, Rule::Unary)) {
                Err(e) => Err(e),
                Ok((left, n1)) => if !advanced(ts, pos, n1) {
                    Err(fail_at(ts, pos, ParseErrorKind::NoProgress))
                } else {
                    as_expr(parse_rule(ts, n1, Rule::FactorRest(left)))
                },
            }
        }),
        Rule::FactorRest(left) => lift_expr({
            if kind_at(ts, pos) is Asterisk || kind_at(ts, pos) is Slash || kind_at(ts, pos) is Percent {
                let op = if kind_at(ts, pos) is Asterisk {
                    FactorOp::Multiply
                } else if kind_at(ts, pos) is Slash {
                    FactorOp::Divide
                } else {
                    FactorOp::Modulus
                };
                match as_expr(parse_rule(ts, pos + 1, Rule::Unary)) {
                    Err(e) => Err(e),
                    Ok((right, n1)) => if !advanced(ts, pos, n1) {
                        Err(fail_at(ts, pos, ParseErrorKind::NoProgress))
                    } else {
                        as_expr(parse_rule(ts, n1, Rule::FactorRest(SpecExpr::Factor { left: Box::new(left), op, right: Box::new(right) })))
                    },
                }
            } else {
                Ok((left, pos))
            }
        }),
        Rule::Unary => lift_expr({
            if kind_at(ts, pos) is Minus || kind_at(ts, pos) is Not {
                let op = if kind_at(ts, pos) is Minus {
                    UnaryOp::Minus
                } else {
                    UnaryOp::Not
                };
                match as_expr(parse_rule(ts, pos + 1, Rule::Unary)) {
                    Err(e) => Err(e),
                    Ok((right, n1)) => Ok((SpecExpr::Unary { op, right: Box::new(right) }, n1)),
                }
            } else {
                as_expr(parse_rule(ts, pos, Rule::Primary))
            }
        }),
        Rule::Primary => lift_expr({
            match kind_at(ts, pos) {
                SpecTokenType::Identifier(id) => as_expr(parse_rule(ts, pos + 1, Rule::Postfix(SpecExpr::Identifier(id)))),
                SpecTokenType::Number(n) => Ok((SpecExpr::Number(n), pos + 1)),
                SpecTokenType::String(s) => Ok((SpecExpr::String(s), pos + 1)),
                SpecTokenType::True => Ok((SpecExpr::Boolean(true), pos + 1)),
                SpecTokenType::False => Ok((SpecExpr::Boolean(false), pos + 1)),
                SpecTokenType::LeftParen => match as_expr(parse_rule(ts, pos + 1, Rule::Expr)) {
                    Err(e) => Err(e),
                    Ok((e, n1)) => if kind_at(ts, n1) is RightParen {
                        Ok((e, n1 + 1))
                    } else {
                        Err(fail_at(ts, n1, ParseErrorKind::ExpectedRightParen))
                    },
                },
                SpecTokenType::LeftBracket => match as_exprs(parse_rule(ts, pos + 1, Rule::Items(SpecTokenType::RightBracket, Seq::empty()))) {
                    Err(e) => Err(e),
                    Ok((items, n1)) => if kind_at(ts, n1) is RightBracket {
                        Ok((SpecExpr::List(items), n1 + 1))
                    } else {
                        Err(fail_at(ts, n1, ParseErrorKind::ExpectedRightBracket))
                    },
                },
                SpecTokenType::LeftBrace => match as_fields(parse_rule(ts, pos + 1, Rule::Fields(Seq::empty()))) {
                    Err(e) => Err(e),
                    Ok((fields, n1)) => if kind_at(ts, n1) is RightBrace {
                        Ok((SpecExpr::Record(fields), n1 + 1))
                    } else {
                        Err(fail_at(ts, n1, ParseErrorKind::ExpectedRightBrace))
                    },
                },
                _ => Err(fail_at(ts, pos, ParseErrorKind::UnexpectedToken)),
            }
        }),
        Rule::Postfix(base) => lift_expr({
            match kind_at(ts, pos) {
                SpecTokenType::LeftBracket => match as_bracket(parse_rule(ts, pos + 1, Rule::Bracket(Bracket { start: None, has_dots: false, end: None }))) {
                    Err(e) => Err(e),
                    Ok((inside, n1)) => if !advanced(ts, pos, n1) {
                        Err(fail_at(ts, pos, ParseErrorKind::NoProgress))
                    } else if !(kind_at(ts, n1) is RightBracket) {
                        Err(fail_at(ts, n1, ParseErrorKind::ExpectedRightBracket))
                    } else if inside.has_dots {
                        if inside.start is None && inside.end is None {
                            Err(fail_at(ts, n1 + 1, ParseErrorKind::ExpectedSliceBound))
                        } else {
                            as_expr(parse_rule(ts, n1 + 1, Rule::Postfix(SpecExpr::Slice {
                                    list: Box::new(base),
                                    start: match inside.start {
                                        Some(e) => Some(Box::new(e)),
                                        None => None,
                                    },
                                    end: match inside.end {
                                        Some(e) => Some(Box::new(e)),
                                        None => None,
                                    },
                                })))
                        }
                    } else {
                        match inside.start {
                            Some(index) => as_expr(parse_rule(ts, n1 + 1, Rule::Postfix(SpecExpr::Index { list: Box::new(base), index: Box::new(index) }))),
                            None => Err(fail_at(ts, n1 + 1, ParseErrorKind::ExpectedIndex)),
                        }
                    },
                },
                SpecTokenType::LeftParen => match as_exprs(parse_rule(ts, pos + 1, Rule::Items(SpecTokenType::RightParen, Seq::empty()))) {
                    Err(e) => Err(e),
                    Ok((args, n1)) => if !advanced(ts, pos, n1) {
                        Err(fail_at(ts, pos, ParseErrorKind::NoProgress))
                    } else if kind_at(ts, n1) is RightParen {
                        as_expr(parse_rule(ts, n1 + 1, Rule::Postfix(SpecExpr::Call { name: Box::new(base), args })))
                    } else {
                        Err(fail_at(ts, n1, ParseErrorKind::ExpectedRightParen))
                    },
                },
                SpecTokenType::Dot => match kind_at(ts, pos + 1) {
                    SpecTokenType::Identifier(field) => as_expr(parse_rule(ts, pos + 2, Rule::Postfix(SpecExpr::Access { record: Box::new(base), field }))),
                    _ => Err(fail_at(ts, pos + 1, ParseErrorKind::ExpectedFieldAfterDot)),
                },
                _ => Ok((base, pos)),
            }
        }),
        Rule::Bracket(inside) => lift_bracket({
            if kind_at(ts, pos) is RightBracket {
                Ok((inside, pos))
            } else if kind_at(ts, pos) is DotDot {
                as_bracket(parse_rule(ts, pos + 1, Rule::Bracket(Bracket { start: inside.start, has_dots: true, end: inside.end })))
            } else {
                match as_expr(parse_rule(ts, pos, Rule::Primary)) {
                    Err(e) => Err(e),
                    Ok((e, n1)) => if !advanced(ts, pos, n1) {
                        Err(fail_at(ts, pos, ParseErrorKind::NoProgress))
                    } else if inside.has_dots {
                        as_bracket(parse_rule(ts, n1, Rule::Bracket(Bracket { start: inside.start, has_dots: true, end: Some(e) })))
                    } else {
                        as_bracket(parse_rule(ts, n1, Rule::Bracket(Bracket { start: Some(e), has_dots: false, end: inside.end })))
                    },
                }
            }
        }),
        Rule::Items(close, so_far) => lift_exprs({
            if kind_at(ts, pos) == close {
                Ok((so_far, pos))
            } else {
                match as_expr(parse_rule(ts, pos, Rule::Expr)) {
                    Err(e) => Err(e),
                    Ok((e, n1)) => if !advanced(ts, pos, n1) {
                        Err(fail_at(ts, pos, ParseErrorKind::NoProgress))
                    } else if kind_at(ts, n1) is Comma {
                        as_exprs(parse_rule(ts, n1 + 1, Rule::Items(close, so_far.push(e))))
                    } else {
                        Ok((so_far.push(e), n1))
                    },
                }
            }
        }),
        Rule::Fields(so_far) => lift_fields({
            if kind_at(ts, pos) is RightBrace {
                Ok((so_far, pos))
            } else {
                match kind_at(ts, pos) {
                    SpecTokenType::Identifier(name) => if !(kind_at(ts, pos + 1) is Colon) {
                        Err(fail_at(ts, pos + 1, ParseErrorKind::ExpectedColon))
                    } else {
                        match as_expr(parse_rule(ts, pos + 2, Rule::Expr)) {
                            Err(e) => Err(e),
                            Ok((value, n1)) => if !advanced(ts, pos, n1) {
                                Err(fail_at(ts, pos, ParseErrorKind::NoProgress))
                            } else if kind_at(ts, n1) is Comma {
                                as_fields(parse_rule(ts, n1 + 1, Rule::Fields(so_far.push((name, value)))))
                            } else {
                                Ok((so_far.push((name, value)), n1))
                            },
                        }
                    },
                    _ => Err(fail_at(ts, pos, ParseErrorKind::ExpectedFieldName)),
                }
            }
        }),
    }
}

/// The statements of a program, from index `pos` to the first `EOF`, after those read so far.
pub open spec fn parse_program(ts: Seq<SpecToken>, pos: int, so_far: Seq<SpecStmt>) -> Result< Seq<SpecStmt>, SpecParseError, > {
    as_stmts(parse_rule(ts, pos, Rule::Program(so_far)))
}

/// A statement: `let` name `=` expression, or an expression.
pub open spec fn parse_statement(ts: Seq<SpecToken>, pos: int) -> Result<(SpecStmt, int), SpecParseError> {
    as_stmt(parse_rule(ts, pos, Rule::Statement))
}

/// An expression: `if`, `match` or `fn` by its first token, or else a chain of pipes.
pub open spec fn parse_expr(ts: Seq<SpecToken>, pos: int) -> Result<(SpecExpr, int), SpecParseError> {
    as_expr(parse_rule(ts, pos, Rule::Expr))
}

/// The cases of a `match` from index `pos` on, after those read so far: each a `|`, a pattern,
/// `->` and an expression.
pub open spec fn parse_cases(ts: Seq<SpecToken>, pos: int, so_far: Seq<SpecCase>) -> Result< (Seq<SpecCase>, int), SpecParseError, > {
    as_cases(parse_rule(ts, pos, Rule::Cases(so_far)))
}

/// The parameters of a function from index `pos` on, after those read so far: names with
/// commas between them, up to the `->` or to where no comma follows.
pub open spec fn parse_params(ts: Seq<SpecToken>, pos: int, so_far: Seq<Seq<char>>) -> Result< (Seq<Seq<char>>, int), SpecParseError, > {
    as_params(parse_rule(ts, pos, Rule::Params(so_far)))
}

/// A chain of pipes: logic expressions with `|>` between them, grouped from the left.
pub open spec fn parse_pipe_expr(ts: Seq<SpecToken>, pos: int) -> Result<(SpecExpr, int), SpecParseError> {
    as_expr(parse_rule(ts, pos, Rule::Pipe))
}

/// The rest of a chain of pipes whose left part, `left`, ends before index `pos`.
pub open spec fn parse_pipe_rest(ts: Seq<SpecToken>, pos: int, left: SpecExpr) -> Result< (SpecExpr, int), SpecParseError, > {
    as_expr(parse_rule(ts, pos, Rule::PipeRest(left)))
}

/// A comparison, or two of them with `and` or `or` between them.
pub open spec fn parse_logic_expr(ts: Seq<SpecToken>, pos: int) -> Result<(SpecExpr, int), SpecParseError> {
    as_expr(parse_rule(ts, pos, Rule::Logic))
}

/// A range, or two of them with a comparison operator between them.
pub open spec fn parse_comp_expr(ts: Seq<SpecToken>, pos: int) -> Result<(SpecExpr, int), SpecParseError> {
    as_expr(parse_rule(ts, pos, Rule::Comp))
}

/// A sum, or two of them with `..` between them.
pub open spec fn parse_range_expr(ts: Seq<SpecToken>, pos: int) -> Result<(SpecExpr, int), SpecParseError> {
    as_expr(parse_rule(ts, pos, Rule::Range))
}

/// A sum: products with `+` or `-` between them, grouped from the left.
pub open spec fn parse_term_expr(ts: Seq<SpecToken>, pos: int) -> Result<(SpecExpr, int), SpecParseError> {
    as_expr(parse_rule(ts, pos, Rule::Term))
}

/// The rest of a sum whose left part, `left`, ends before index `pos`.
pub open spec fn parse_term_rest(ts: Seq<SpecToken>, pos: int, left: SpecExpr) -> Result< (SpecExpr, int), SpecParseError, > {
    as_expr(parse_rule(ts, pos, Rule::TermRest(left)))
}

/// A product: unary expressions with `*`, `/` or `%` between them, grouped from the left.
pub open spec fn parse_factor_expr(ts: Seq<SpecToken>, pos: int) -> Result<(SpecExpr, int), SpecParseError> {
    as_expr(parse_rule(ts, pos, Rule::Factor))
}

/// The rest of a product whose left part, `left`, ends before index `pos`.
pub open spec fn parse_factor_rest(ts: Seq<SpecToken>, pos: int, left: SpecExpr) -> Result< (SpecExpr, int), SpecParseError, > {
    as_expr(parse_rule(ts, pos, Rule::FactorRest(left)))
}

/// A primary expression, after any number of `-` and `not`.
pub open spec fn parse_unary_expr(ts: Seq<SpecToken>, pos: int) -> Result<(SpecExpr, int), SpecParseError> {
    as_expr(parse_rule(ts, pos, Rule::Unary))
}

/// A primary expression: a literal; a name, with what follows it; an expression in
/// parentheses; a list in brackets; a record in braces.
pub open spec fn parse_primary_expr(ts: Seq<SpecToken>, pos: int) -> Result<(SpecExpr, int), SpecParseError> {
    as_expr(parse_rule(ts, pos, Rule::Primary))
}

/// What follows a name, any number of times: an index or a slice in brackets, arguments
/// in parentheses, or `.` and the name of a field. `base` is what was read so far.
pub open spec fn parse_postfix(ts: Seq<SpecToken>, pos: int, base: SpecExpr) -> Result< (SpecExpr, int), SpecParseError, > {
    as_expr(parse_rule(ts, pos, Rule::Postfix(base)))
}

/// What stands inside brackets after a name, up to the `]`: primary expressions and `..`.
/// What is read before any `..` is the index or the start of a slice, what is read after one
/// is its end; of several, the last one stays.
pub open spec fn parse_bracket(ts: Seq<SpecToken>, pos: int, inside: Bracket) -> Result< (Bracket, int), SpecParseError, > {
    as_bracket(parse_rule(ts, pos, Rule::Bracket(inside)))
}

/// Expressions with commas between them, after those read so far, up to the token `close`
/// or to where no comma follows.
pub open spec fn parse_items(ts: Seq<SpecToken>, pos: int, close: SpecTokenType, so_far: Seq<SpecExpr>,) -> Result<(Seq<SpecExpr>, int), SpecParseError> {
    as_exprs(parse_rule(ts, pos, Rule::Items(close, so_far)))
}

/// The fields of a record, after those read so far: each a name, `:` and an expression, with
/// commas between them, up to the `}` or to where no comma follows.
pub open spec fn parse_fields(ts: Seq<SpecToken>, pos: int, so_far: Seq<(Seq<char>, SpecExpr)>) -> Result< (Seq<(Seq<char>, SpecExpr)>, int), SpecParseError, > {
    as_fields(parse_rule(ts, pos, Rule::Fields(so_far)))
}

} // verus!
