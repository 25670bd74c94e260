use dolang::lexer::Lexer;
use dolang::token::{Token, TokenType};

fn source_to_tokens(source: &str) -> Vec<Token> {
    let mut lexer = Lexer::new(source);
    let mut tokens = Vec::new();
    loop {
        let token = lexer.next_token();
        if token.token_type == TokenType::EOF {
            break;
        }
        tokens.push(token);
    }
    tokens
}

#[test]
fn lexer_test_test_lexer() {
    // what examples/let.do holds
    let test_cases = vec![(
        "let x = 10\nlet y = 20\nlet sum = x + y\n",
        vec![
            TokenType::Let,
            TokenType::Identifier("x".to_string()),
            TokenType::Assign,
            TokenType::Number("10".to_string()),
            TokenType::Let,
            TokenType::Identifier("y".to_string()),
            TokenType::Assign,
            TokenType::Number("20".to_string()),
            TokenType::Let,
            TokenType::Identifier("sum".to_string()),
            TokenType::Assign,
            TokenType::Identifier("x".to_string()),
            TokenType::Plus,
            TokenType::Identifier("y".to_string()),
        ],
    )];

    for (source, expected_tokens) in test_cases {
        let tokens: Vec<TokenType> = source_to_tokens(source).into_iter().map(|t| t.token_type).collect();
        assert_eq!(tokens, expected_tokens);
    }
}
