use dolang::ast::{CompOp, Expr, FactorOp, LogicOp, Stmt, TermOp, UnaryOp, AST};
use dolang::parser::Parser;
use dolang::token::{Position, Range, Token, TokenType};

fn lit(x: &str) -> Expr {
    Expr::Number(x.to_string())
}

fn number(x: &str) -> TokenType {
    TokenType::Number(x.to_string())
}

fn tokens(kinds: Vec<TokenType>) -> Vec<Token> {
    let here = Range { start: Position { line: 1, column: 1 }, end: Position { line: 1, column: 1 } };
    kinds.into_iter().map(|token_type| Token { token_type, range: here }).collect()
}

#[test]
fn parser_test_test_parser() {
    let test_cases = vec![
        (
            // 1
            vec![number("1")],
            Ok(AST { stmts: vec![Stmt::Expr(lit("1"))] }),
        ),
        (
            // let x = 1
            vec![TokenType::Let, TokenType::Identifier("x".to_string()), TokenType::Assign, number("1")],
            Ok(AST { stmts: vec![Stmt::Let { name: "x".to_string(), val: lit("1") }] }),
        ),
        (
            // 1 == 2,
            vec![number("1"), TokenType::Equal, number("2")],
            Ok(AST {
                stmts: vec![Stmt::Expr(Expr::Comp {
                    left: Box::new(lit("1")),
                    op: CompOp::Equal,
                    right: Box::new(lit("2")),
                })],
            }),
        ),
        (
            // 1 + 2
            vec![number("1"), TokenType::Plus, number("2")],
            Ok(AST {
                stmts: vec![Stmt::Expr(Expr::Term {
                    left: Box::new(lit("1")),
                    op: TermOp::Plus,
                    right: Box::new(lit("2")),
                })],
            }),
        ),
        (
            // let x = 1 + 2
            vec![
                TokenType::Let,
                TokenType::Identifier("x".to_string()),
                TokenType::Assign,
                number("1"),
                TokenType::Plus,
                number("2"),
            ],
            Ok(AST {
                stmts: vec![Stmt::Let {
                    name: "x".to_string(),
                    val: Expr::Term {
                        left: Box::new(lit("1")),
                        op: TermOp::Plus,
                        right: Box::new(lit("2")),
                    },
                }],
            }),
        ),
        (
            // 2 * 3
            vec![number("2"), TokenType::Asterisk, number("3")],
            Ok(AST {
                stmts: vec![Stmt::Expr(Expr::Factor {
                    left: Box::new(lit("2")),
                    op: FactorOp::Multiply,
                    right: Box::new(lit("3")),
                })],
            }),
        ),
        (
            // -1
            vec![TokenType::Minus, number("1")],
            Ok(AST {
                stmts: vec![Stmt::Expr(Expr::Unary { op: UnaryOp::Minus, right: Box::new(lit("1")) })],
            }),
        ),
        (
            // true
            vec![TokenType::True],
            Ok(AST { stmts: vec![Stmt::Expr(Expr::Boolean(true))] }),
        ),
        (
            // 1 + 1 && 2 + 2
            vec![
                number("1"),
                TokenType::Plus,
                number("1"),
                TokenType::And,
                number("2"),
                TokenType::Plus,
                number("2"),
            ],
            Ok(AST {
                stmts: vec![Stmt::Expr(Expr::Logic {
                    left: Box::new(Expr::Term {
                        left: Box::new(lit("1")),
                        op: TermOp::Plus,
                        right: Box::new(lit("1")),
                    }),
                    op: LogicOp::And,
                    right: Box::new(Expr::Term {
                        left: Box::new(lit("2")),
                        op: TermOp::Plus,
                        right: Box::new(lit("2")),
                    }),
                })],
            }),
        ),
    ];

    for (kinds, expected) in test_cases {
        let mut parser = Parser::new(tokens(kinds));
        let result = parser.parse();
        assert_eq!(result, expected);
    }
}

#[test]
fn eof_ends_the_program() {
    let mut parser = Parser::new(tokens(vec![number("1"), TokenType::EOF, number("2")]));
    assert_eq!(parser.parse(), Ok(AST { stmts: vec![Stmt::Expr(lit("1"))] }));
}
