use dolang::ast::{Case, CompOp, Expr, FactorOp, LogicOp, Pattern, Stmt, TermOp, UnaryOp, AST};
use dolang::lexer::Lexer;
use dolang::parser::error::{ParseError, ParseErrorKind};
use dolang::parser::Parser;
use dolang::token::TokenType;

fn lit(x: &str) -> Expr {
    Expr::Number(x.to_string())
}

fn name(x: &str) -> Expr {
    Expr::Identifier(x.to_string())
}

fn parse(input: &str) -> Result<AST, ParseError> {
    let mut lexer = Lexer::new(input);
    let mut tokens = Vec::new();
    loop {
        let token = lexer.next_token();
        if token.token_type == TokenType::EOF {
            break;
        }
        tokens.push(token);
    }
    let mut parser = Parser::new(tokens);
    parser.parse()
}

fn expr(input: &str) -> Expr {
    let mut ast = parse(input).expect(input);
    assert_eq!(ast.stmts.len(), 1, "{}", input);
    match ast.stmts.pop() {
        Some(Stmt::Expr(e)) => e,
        other => panic!("{:?}", other),
    }
}

fn failure(input: &str) -> ParseErrorKind {
    match parse(input) {
        Err(e) => e.kind,
        Ok(ast) => panic!("{} parses as {:?}", input, ast),
    }
}

#[test]
fn parser_test_parser() {
    let test_cases = vec![
        ("1", Ok(AST { stmts: vec![Stmt::Expr(lit("1"))] })),
        (
            "not true",
            Ok(AST {
                stmts: vec![Stmt::Expr(Expr::Unary {
                    op: UnaryOp::Not,
                    right: Box::new(Expr::Boolean(true)),
                })],
            }),
        ),
        (
            "1 + 2 * 3",
            Ok(AST {
                stmts: vec![Stmt::Expr(Expr::Term {
                    left: Box::new(lit("1")),
                    op: TermOp::Plus,
                    right: Box::new(Expr::Factor {
                        left: Box::new(lit("2")),
                        op: FactorOp::Multiply,
                        right: Box::new(lit("3")),
                    }),
                })],
            }),
        ),
        (
            "1 + 2",
            Ok(AST {
                stmts: vec![Stmt::Expr(Expr::Term {
                    left: Box::new(lit("1")),
                    op: TermOp::Plus,
                    right: Box::new(lit("2")),
                })],
            }),
        ),
        (
            "if true then 1 else 2",
            Ok(AST {
                stmts: vec![Stmt::Expr(Expr::If {
                    cond: Box::new(Expr::Boolean(true)),
                    then: Box::new(lit("1")),
                    else_: Box::new(lit("2")),
                })],
            }),
        ),
        (
            "match x 
    | 1 -> \"one\"
    | 2 -> \"two\"",
            Ok(AST {
                stmts: vec![Stmt::Expr(Expr::Match {
                    cond: Box::new(name("x")),
                    cases: vec![
                        Case {
                            pattern: Pattern::Number("1".to_string()),
                            body: Expr::String("one".to_string()),
                        },
                        Case {
                            pattern: Pattern::Number("2".to_string()),
                            body: Expr::String("two".to_string()),
                        },
                    ],
                })],
            }),
        ),
        ("let x = 10", Ok(AST { stmts: vec![Stmt::Let { name: "x".to_string(), val: lit("10") }] })),
        (
            "let add = fn x, y -> x + y",
            Ok(AST {
                stmts: vec![Stmt::Let {
                    name: "add".to_string(),
                    val: Expr::Func {
                        params: vec!["x".to_string(), "y".to_string()],
                        body: Box::new(Expr::Term {
                            left: Box::new(name("x")),
                            op: TermOp::Plus,
                            right: Box::new(name("y")),
                        }),
                    },
                }],
            }),
        ),
        (
            "[1, 2, 3] |> filter(fn x -> x > 1)",
            Ok(AST {
                stmts: vec![Stmt::Expr(Expr::Pipe {
                    left: Box::new(Expr::List(vec![lit("1"), lit("2"), lit("3")])),
                    right: Box::new(Expr::Call {
                        name: Box::new(name("filter")),
                        args: vec![Expr::Func {
                            params: vec!["x".to_string()],
                            body: Box::new(Expr::Comp {
                                left: Box::new(name("x")),
                                op: CompOp::GreaterThan,
                                right: Box::new(lit("1")),
                            }),
                        }],
                    }),
                })],
            }),
        ),
        (
            "true and false",
            Ok(AST {
                stmts: vec![Stmt::Expr(Expr::Logic {
                    left: Box::new(Expr::Boolean(true)),
                    op: LogicOp::And,
                    right: Box::new(Expr::Boolean(false)),
                })],
            }),
        ),
        (
            "1 < 2 or 3 > 4",
            Ok(AST {
                stmts: vec![Stmt::Expr(Expr::Logic {
                    left: Box::new(Expr::Comp {
                        left: Box::new(lit("1")),
                        op: CompOp::LessThan,
                        right: Box::new(lit("2")),
                    }),
                    op: LogicOp::Or,
                    right: Box::new(Expr::Comp {
                        left: Box::new(lit("3")),
                        op: CompOp::GreaterThan,
                        right: Box::new(lit("4")),
                    }),
                })],
            }),
        ),
        (
            "mysql.connect(\"localhost\", \"user\", \"password\")",
            Ok(AST {
                stmts: vec![Stmt::Expr(Expr::Call {
                    name: Box::new(Expr::Access {
                        record: Box::new(name("mysql")),
                        field: "connect".to_string(),
                    }),
                    args: vec![
                        Expr::String("localhost".to_string()),
                        Expr::String("user".to_string()),
                        Expr::String("password".to_string()),
                    ],
                })],
            }),
        ),
    ];

    for (input, expected) in test_cases {
        let result = parse(input);
        assert_eq!(result, expected, "Failed to parse input: {}", input);
    }
}

#[test]
fn sums_and_products_group_from_the_left() {
    assert_eq!(
        expr("1 - 2 - 3"),
        Expr::Term {
            left: Box::new(Expr::Term {
                left: Box::new(lit("1")),
                op: TermOp::Minus,
                right: Box::new(lit("2")),
            }),
            op: TermOp::Minus,
            right: Box::new(lit("3")),
        }
    );
    assert_eq!(
        expr("8 / 4 % 3"),
        Expr::Factor {
            left: Box::new(Expr::Factor {
                left: Box::new(lit("8")),
                op: FactorOp::Divide,
                right: Box::new(lit("4")),
            }),
            op: FactorOp::Modulus,
            right: Box::new(lit("3")),
        }
    );
    assert_eq!(
        expr("(1 + 2) * 3"),
        Expr::Factor {
            left: Box::new(Expr::Term {
                left: Box::new(lit("1")),
                op: TermOp::Plus,
                right: Box::new(lit("2")),
            }),
            op: FactorOp::Multiply,
            right: Box::new(lit("3")),
        }
    );
}

#[test]
fn pipes_chain() {
    assert_eq!(
        expr("a |> f |> g"),
        Expr::Pipe {
            left: Box::new(Expr::Pipe { left: Box::new(name("a")), right: Box::new(name("f")) }),
            right: Box::new(name("g")),
        }
    );
}

#[test]
fn unary_nests() {
    assert_eq!(
        expr("not not x"),
        Expr::Unary {
            op: UnaryOp::Not,
            right: Box::new(Expr::Unary { op: UnaryOp::Not, right: Box::new(name("x")) }),
        }
    );
    assert_eq!(expr("- x"), Expr::Unary { op: UnaryOp::Minus, right: Box::new(name("x")) });
}

#[test]
fn ranges_and_comparisons() {
    assert_eq!(
        expr("1 + 1 .. 5"),
        Expr::Range {
            start: Box::new(Expr::Term {
                left: Box::new(lit("1")),
                op: TermOp::Plus,
                right: Box::new(lit("1")),
            }),
            end: Box::new(lit("5")),
        }
    );
    assert_eq!(
        expr("a <= b"),
        Expr::Comp { left: Box::new(name("a")), op: CompOp::LessThanOrEqual, right: Box::new(name("b")) }
    );
    assert_eq!(
        expr("a != b"),
        Expr::Comp { left: Box::new(name("a")), op: CompOp::NotEqual, right: Box::new(name("b")) }
    );
}

#[test]
fn what_follows_a_name_chains() {
    assert_eq!(
        expr("f(x).y[0]"),
        Expr::Index {
            list: Box::new(Expr::Access {
                record: Box::new(Expr::Call { name: Box::new(name("f")), args: vec![name("x")] }),
                field: "y".to_string(),
            }),
            index: Box::new(lit("0")),
        }
    );
    assert_eq!(expr("f()"), Expr::Call { name: Box::new(name("f")), args: vec![] });
}

#[test]
fn slices() {
    assert_eq!(
        expr("s[1..3]"),
        Expr::Slice {
            list: Box::new(name("s")),
            start: Some(Box::new(lit("1"))),
            end: Some(Box::new(lit("3"))),
        }
    );
    assert_eq!(
        expr("s[..n]"),
        Expr::Slice { list: Box::new(name("s")), start: None, end: Some(Box::new(name("n"))) }
    );
    assert_eq!(
        expr("s[2..]"),
        Expr::Slice { list: Box::new(name("s")), start: Some(Box::new(lit("2"))), end: None }
    );
    assert_eq!(failure("s[..]"), ParseErrorKind::ExpectedSliceBound);
    assert_eq!(failure("s[]"), ParseErrorKind::ExpectedIndex);
    assert_eq!(failure("s[1"), ParseErrorKind::UnexpectedToken);
}

#[test]
fn functions() {
    assert_eq!(expr("fn _ -> 1"), Expr::Func { params: vec![], body: Box::new(lit("1")) });
    assert_eq!(
        expr("fn x -> fn y -> x"),
        Expr::Func {
            params: vec!["x".to_string()],
            body: Box::new(Expr::Func { params: vec!["y".to_string()], body: Box::new(name("x")) }),
        }
    );
    assert_eq!(failure("fn 1 -> 2"), ParseErrorKind::ExpectedParameter);
    assert_eq!(failure("fn x y"), ParseErrorKind::ExpectedArrowAfterParameters);
}

#[test]
fn records_and_lists() {
    assert_eq!(
        expr("{ name: \"John\", age: 30 }"),
        Expr::Record(vec![
            ("name".to_string(), Expr::String("John".to_string())),
            ("age".to_string(), lit("30")),
        ])
    );
    assert_eq!(expr("{}"), Expr::Record(vec![]));
    assert_eq!(expr("[]"), Expr::List(vec![]));
    assert_eq!(expr("[1,]"), Expr::List(vec![lit("1")]));
    assert_eq!(failure("{ 1: 2 }"), ParseErrorKind::ExpectedFieldName);
    assert_eq!(failure("{ a 2 }"), ParseErrorKind::ExpectedColon);
    assert_eq!(failure("{ a: 2"), ParseErrorKind::ExpectedRightBrace);
    assert_eq!(failure("[1, 2"), ParseErrorKind::ExpectedRightBracket);
    assert_eq!(failure("(1"), ParseErrorKind::ExpectedRightParen);
    assert_eq!(failure("f(1"), ParseErrorKind::ExpectedRightParen);
}

#[test]
fn statements() {
    let ast = parse("let x = 1\nlet y = x\ny").unwrap();
    assert_eq!(ast.stmts.len(), 3);
    assert_eq!(parse("").unwrap().stmts.len(), 0);
    assert_eq!(failure("let 1 = 2"), ParseErrorKind::ExpectedIdentifierAfterLet);
    assert_eq!(failure("let x 2"), ParseErrorKind::ExpectedAssign);
    assert_eq!(failure("if a 1"), ParseErrorKind::ExpectedThen);
    assert_eq!(failure("if a then 1"), ParseErrorKind::ExpectedElse);
    assert_eq!(failure("match x"), ParseErrorKind::ExpectedCase);
    assert_eq!(failure("match x | y -> 1"), ParseErrorKind::ExpectedPattern);
    assert_eq!(failure("match x | 1 2"), ParseErrorKind::ExpectedArrowAfterPattern);
    assert_eq!(failure("x ."), ParseErrorKind::ExpectedFieldAfterDot);
    assert_eq!(failure("1 +"), ParseErrorKind::UnexpectedToken);
    assert_eq!(failure("@"), ParseErrorKind::UnexpectedToken);
    assert_eq!(failure("true and false and true"), ParseErrorKind::UnexpectedToken);
}

#[test]
fn a_failure_names_the_token() {
    let e = parse("let x = )").unwrap_err();
    assert_eq!(e.kind, ParseErrorKind::UnexpectedToken);
    assert_eq!(e.position, 3);
    assert_eq!(e.found, TokenType::RightParen);
    assert_eq!(
        e.message(),
        "Error parsing statement: Expected identifier, number, string, true, false, or '(' but found: RightParen ())"
    );
    let e = parse("let").unwrap_err();
    assert_eq!(e.found, TokenType::EOF);
    assert_eq!(e.position, 1);
}
