use dolang::lexer::{tokenize, Lexer};
use dolang::token::{Position, Range, Token, TokenType};

fn tok(token_type: TokenType, line: usize, from: usize, to: usize) -> Token {
    Token {
        token_type,
        range: Range { start: Position { line, column: from }, end: Position { line, column: to } },
    }
}

fn id(s: &str) -> TokenType {
    TokenType::Identifier(s.to_string())
}

fn num(s: &str) -> TokenType {
    TokenType::Number(s.to_string())
}

#[test]
fn lexer_test_lexer() {
    let test_cases = vec![
        (
            "let msg = \"Hello, World!\"
println(msg)",
            vec![
                tok(TokenType::Let, 1, 1, 3),
                tok(id("msg"), 1, 5, 7),
                tok(TokenType::Assign, 1, 9, 9),
                tok(TokenType::String("Hello, World!".to_string()), 1, 11, 25),
                tok(id("println"), 2, 1, 7),
                tok(TokenType::LeftParen, 2, 8, 8),
                tok(id("msg"), 2, 9, 11),
                tok(TokenType::RightParen, 2, 12, 12),
            ],
        ),
        (
            "let nums = [1, 2, 3, 4, 5]
let odds = nums |> filter(fn n -> n % 2 != 0)",
            vec![
                tok(TokenType::Let, 1, 1, 3),
                tok(id("nums"), 1, 5, 8),
                tok(TokenType::Assign, 1, 10, 10),
                tok(TokenType::LeftBracket, 1, 12, 12),
                tok(num("1"), 1, 13, 13),
                tok(TokenType::Comma, 1, 14, 14),
                tok(num("2"), 1, 16, 16),
                tok(TokenType::Comma, 1, 17, 17),
                tok(num("3"), 1, 19, 19),
                tok(TokenType::Comma, 1, 20, 20),
                tok(num("4"), 1, 22, 22),
                tok(TokenType::Comma, 1, 23, 23),
                tok(num("5"), 1, 25, 25),
                tok(TokenType::RightBracket, 1, 26, 26),
                tok(TokenType::Let, 2, 1, 3),
                tok(id("odds"), 2, 5, 8),
                tok(TokenType::Assign, 2, 10, 10),
                tok(id("nums"), 2, 12, 15),
                tok(TokenType::ForwardPipe, 2, 17, 18),
                tok(id("filter"), 2, 20, 25),
                tok(TokenType::LeftParen, 2, 26, 26),
                tok(TokenType::Fn, 2, 27, 28),
                tok(id("n"), 2, 30, 30),
                tok(TokenType::Arrow, 2, 32, 33),
                tok(id("n"), 2, 35, 35),
                tok(TokenType::Percent, 2, 37, 37),
                tok(num("2"), 2, 39, 39),
                tok(TokenType::NotEqual, 2, 41, 42),
                tok(num("0"), 2, 44, 44),
                tok(TokenType::RightParen, 2, 45, 45),
            ],
        ),
    ];

    for (source, expected_tokens) in test_cases {
        let mut lexer = Lexer::new(source);

        let mut tokens = Vec::new();
        loop {
            let token = lexer.next_token();
            if token.token_type == TokenType::EOF {
                break;
            }
            tokens.push(token);
        }

        assert_eq!(
            tokens.len(),
            expected_tokens.len(),
            "Token count mismatch for source: {}",
            source
        );

        for (i, token) in tokens.iter().enumerate() {
            assert_eq!(token, &expected_tokens[i]);
        }
    }
}

fn kinds(source: &str) -> Vec<TokenType> {
    tokenize(source).into_iter().map(|t| t.token_type).collect()
}

#[test]
fn lexing_ends_with_eof() {
    for source in ["", "   ", "# only a comment", "let x = 1", "\u{1F600} @ $", "\"open", "1.2.3", "a\n\n"] {
        let tokens = kinds(source);
        assert_eq!(tokens.last(), Some(&TokenType::EOF), "{:?}", source);
        assert_eq!(tokens.iter().filter(|t| **t == TokenType::EOF).count(), 1, "{:?}", source);
    }
}

#[test]
fn eof_again_and_again() {
    let mut lexer = Lexer::new("x");
    assert_eq!(lexer.next_token().token_type, id("x"));
    assert!(lexer.next_token().is_eof());
    assert!(lexer.next_token().is_eof());
}

#[test]
fn unknown_characters_are_invalid() {
    assert_eq!(kinds("@"), vec![TokenType::Invalid, TokenType::EOF]);
    assert_eq!(kinds("!"), vec![TokenType::Invalid, TokenType::EOF]);
    assert_eq!(kinds("a ! b"), vec![id("a"), TokenType::Invalid, id("b"), TokenType::EOF]);
    assert!(tokenize("$")[0].is_invalid());
}

#[test]
fn keywords_and_names() {
    assert_eq!(
        kinds("let fn if then else for in match return and or not true false _ letter _x x1"),
        vec![
            TokenType::Let,
            TokenType::Fn,
            TokenType::If,
            TokenType::Then,
            TokenType::Else,
            TokenType::For,
            TokenType::In,
            TokenType::Match,
            TokenType::Return,
            TokenType::And,
            TokenType::Or,
            TokenType::Not,
            TokenType::True,
            TokenType::False,
            TokenType::Underscore,
            id("letter"),
            id("_x"),
            id("x1"),
            TokenType::EOF,
        ]
    );
}

#[test]
fn operators_by_one_character_of_lookahead() {
    assert_eq!(
        kinds("= == != < <= > >= -> |> | . .. , : ( ) [ ] { } + - * / %"),
        vec![
            TokenType::Assign,
            TokenType::Equal,
            TokenType::NotEqual,
            TokenType::LessThan,
            TokenType::LessThanOrEqual,
            TokenType::GreaterThan,
            TokenType::GreaterThanOrEqual,
            TokenType::Arrow,
            TokenType::ForwardPipe,
            TokenType::Pipe,
            TokenType::Dot,
            TokenType::DotDot,
            TokenType::Comma,
            TokenType::Colon,
            TokenType::LeftParen,
            TokenType::RightParen,
            TokenType::LeftBracket,
            TokenType::RightBracket,
            TokenType::LeftBrace,
            TokenType::RightBrace,
            TokenType::Plus,
            TokenType::Minus,
            TokenType::Asterisk,
            TokenType::Slash,
            TokenType::Percent,
            TokenType::EOF,
        ]
    );
}

#[test]
fn numbers() {
    assert_eq!(kinds("12 3.25"), vec![num("12"), num("3.25"), TokenType::EOF]);
    assert_eq!(kinds("1..3"), vec![num("1"), TokenType::DotDot, num("3"), TokenType::EOF]);
    assert_eq!(kinds("1.2.3"), vec![num("1.2"), TokenType::Dot, num("3"), TokenType::EOF]);
    assert_eq!(kinds("-5"), vec![num("-5"), TokenType::EOF]);
    assert_eq!(kinds("x -1"), vec![id("x"), num("-1"), TokenType::EOF]);
    assert_eq!(kinds("x - 1"), vec![id("x"), TokenType::Minus, num("1"), TokenType::EOF]);
    assert_eq!(kinds("->"), vec![TokenType::Arrow, TokenType::EOF]);
    for literal in ["12", "3.25", "1.", "-5", "-0.5"] {
        assert!(literal.parse::<f64>().is_ok());
    }
    assert_eq!(kinds("1."), vec![num("1."), TokenType::EOF]);
}

#[test]
fn strings_and_escapes() {
    assert_eq!(
        kinds("\"a\\n\\t\\r\\\\\\\"\\0b\""),
        vec![TokenType::String("a\n\t\r\\\"\0b".to_string()), TokenType::EOF]
    );
    assert_eq!(kinds("\"open"), vec![TokenType::Invalid, TokenType::EOF]);
    assert_eq!(kinds("\"a\\"), vec![TokenType::Invalid, TokenType::EOF]);
    assert_eq!(kinds("\"\\q\"")[0], TokenType::Invalid);
    assert_eq!(kinds("\"\""), vec![TokenType::String(String::new()), TokenType::EOF]);
}

#[test]
fn comments_and_positions() {
    let tokens = tokenize("# first\n  x # second\n\ny");
    assert_eq!(
        tokens,
        vec![
            tok(id("x"), 2, 3, 3),
            tok(id("y"), 4, 1, 1),
            tok(TokenType::EOF, 4, 2, 2),
        ]
    );
}
