use vstd::prelude::*;

verus! {

/// A place in the source text: line and column, both counted from 1.
#[derive(Debug, Clone, Copy, PartialEq, Eq, Structural)]
pub struct Position {
    pub line: usize,
    pub column: usize,
}

/// The span of a token, from its first character to its last, both inclusive.
#[derive(Debug, Clone, Copy, PartialEq, Eq, Structural)]
pub struct Range {
    pub start: Position,
    pub end: Position,
}

/// The kind of a token.
///
/// `Number` carries the literal as written (an optional `-`, digits, at most one `.`);
/// turning it into a floating-point value is left to the host.
#[derive(Debug, PartialEq)]
pub enum TokenType {
    Let,
    If,
    Then,
    Else,
    For,
    Fn,
    In,
    Match,
    Pipe,
    Underscore,
    ForwardPipe,
    Arrow,
    Return,
    Assign,
    Equal,
    NotEqual,
    LessThan,
    LessThanOrEqual,
    GreaterThan,
    GreaterThanOrEqual,
    And,
    Or,
    Not,
    True,
    False,
    Comma,
    Dot,
    DotDot,
    Colon,
    LeftParen,
    RightParen,
    LeftBracket,
    RightBracket,
    LeftBrace,
    RightBrace,
    Identifier(String),
    Number(String),
    String(String),
    Plus,
    Minus,
    Asterisk,
    Slash,
    Percent,
    Invalid,
    EOF,
}

/// The mathematical value of a [`TokenType`]: the same kinds, with texts as sequences of characters.
pub enum SpecTokenType {
    Let,
    If,
    Then,
    Else,
    For,
    Fn,
    In,
    Match,
    Pipe,
    Underscore,
    ForwardPipe,
    Arrow,
    Return,
    Assign,
    Equal,
    NotEqual,
    LessThan,
    LessThanOrEqual,
    GreaterThan,
    GreaterThanOrEqual,
    And,
    Or,
    Not,
    True,
    False,
    Comma,
    Dot,
    DotDot,
    Colon,
    LeftParen,
    RightParen,
    LeftBracket,
    RightBracket,
    LeftBrace,
    RightBrace,
    Identifier(Seq<char>),
    Number(Seq<char>),
    String(Seq<char>),
    Plus,
    Minus,
    Asterisk,
    Slash,
    Percent,
    Invalid,
    EOF,
}

impl TokenType {
    pub open spec fn view(&self) -> SpecTokenType {
        match self {
            TokenType::Let => SpecTokenType::Let,
            TokenType::If => SpecTokenType::If,
            TokenType::Then => SpecTokenType::Then,
            TokenType::Else => SpecTokenType::Else,
            TokenType::For => SpecTokenType::For,
            TokenType::Fn => SpecTokenType::Fn,
            TokenType::In => SpecTokenType::In,
            TokenType::Match => SpecTokenType::Match,
            TokenType::Pipe => SpecTokenType::Pipe,
            TokenType::Underscore => SpecTokenType::Underscore,
            TokenType::ForwardPipe => SpecTokenType::ForwardPipe,
            TokenType::Arrow => SpecTokenType::Arrow,
            TokenType::Return => SpecTokenType::Return,
            TokenType::Assign => SpecTokenType::Assign,
            TokenType::Equal => SpecTokenType::Equal,
            TokenType::NotEqual => SpecTokenType::NotEqual,
            TokenType::LessThan => SpecTokenType::LessThan,
            TokenType::LessThanOrEqual => SpecTokenType::LessThanOrEqual,
            TokenType::GreaterThan => SpecTokenType::GreaterThan,
            TokenType::GreaterThanOrEqual => SpecTokenType::GreaterThanOrEqual,
            TokenType::And => SpecTokenType::And,
            TokenType::Or => SpecTokenType::Or,
            TokenType::Not => SpecTokenType::Not,
            TokenType::True => SpecTokenType::True,
            TokenType::False => SpecTokenType::False,
            TokenType::Comma => SpecTokenType::Comma,
            TokenType::Dot => SpecTokenType::Dot,
            TokenType::DotDot => SpecTokenType::DotDot,
            TokenType::Colon => SpecTokenType::Colon,
            TokenType::LeftParen => SpecTokenType::LeftParen,
            TokenType::RightParen => SpecTokenType::RightParen,
            TokenType::LeftBracket => SpecTokenType::LeftBracket,
            TokenType::RightBracket => SpecTokenType::RightBracket,
            TokenType::LeftBrace => SpecTokenType::LeftBrace,
            TokenType::RightBrace => SpecTokenType::RightBrace,
            TokenType::Identifier(s) => SpecTokenType::Identifier(s@),
            TokenType::Number(s) => SpecTokenType::Number(s@),
            TokenType::String(s) => SpecTokenType::String(s@),
            TokenType::Plus => SpecTokenType::Plus,
            TokenType::Minus => SpecTokenType::Minus,
            TokenType::Asterisk => SpecTokenType::Asterisk,
            TokenType::Slash => SpecTokenType::Slash,
            TokenType::Percent => SpecTokenType::Percent,
            TokenType::Invalid => SpecTokenType::Invalid,
            TokenType::EOF => SpecTokenType::EOF,
        }
    }
}

impl Clone for TokenType {
    fn clone(&self) -> (r: Self)
        ensures
            r@ == self@,
    {
        match self {
            TokenType::Let => TokenType::Let,
            TokenType::If => TokenType::If,
            TokenType::Then => TokenType::Then,
            TokenType::Else => TokenType::Else,
            TokenType::For => TokenType::For,
            TokenType::Fn => TokenType::Fn,
            TokenType::In => TokenType::In,
            TokenType::Match => TokenType::Match,
            TokenType::Pipe => TokenType::Pipe,
            TokenType::Underscore => TokenType::Underscore,
            TokenType::ForwardPipe => TokenType::ForwardPipe,
            TokenType::Arrow => TokenType::Arrow,
            TokenType::Return => TokenType::Return,
            TokenType::Assign => TokenType::Assign,
            TokenType::Equal => TokenType::Equal,
            TokenType::NotEqual => TokenType::NotEqual,
            TokenType::LessThan => TokenType::LessThan,
            TokenType::LessThanOrEqual => TokenType::LessThanOrEqual,
            TokenType::GreaterThan => TokenType::GreaterThan,
            TokenType::GreaterThanOrEqual => TokenType::GreaterThanOrEqual,
            TokenType::And => TokenType::And,
            TokenType::Or => TokenType::Or,
            TokenType::Not => TokenType::Not,
            TokenType::True => TokenType::True,
            TokenType::False => TokenType::False,
            TokenType::Comma => TokenType::Comma,
            TokenType::Dot => TokenType::Dot,
            TokenType::DotDot => TokenType::DotDot,
            TokenType::Colon => TokenType::Colon,
            TokenType::LeftParen => TokenType::LeftParen,
            TokenType::RightParen => TokenType::RightParen,
            TokenType::LeftBracket => TokenType::LeftBracket,
            TokenType::RightBracket => TokenType::RightBracket,
            TokenType::LeftBrace => TokenType::LeftBrace,
            TokenType::RightBrace => TokenType::RightBrace,
            TokenType::Identifier(s) => TokenType::Identifier(s.clone()),
            TokenType::Number(s) => TokenType::Number(s.clone()),
            TokenType::String(s) => TokenType::String(s.clone()),
            TokenType::Plus => TokenType::Plus,
            TokenType::Minus => TokenType::Minus,
            TokenType::Asterisk => TokenType::Asterisk,
            TokenType::Slash => TokenType::Slash,
            TokenType::Percent => TokenType::Percent,
            TokenType::Invalid => TokenType::Invalid,
            TokenType::EOF => TokenType::EOF,
        }
    }
}

/// A token: its kind and where it stands in the source.
#[derive(Debug, PartialEq)]
pub struct Token {
    pub token_type: TokenType,
    pub range: Range,
}

/// The mathematical value of a [`Token`].
pub struct SpecToken {
    pub token_type: SpecTokenType,
    pub range: Range,
}

impl Token {
    pub open spec fn view(&self) -> SpecToken {
        SpecToken { token_type: self.token_type@, range: self.range }
    }

    /// Whether this token marks the end of the input.
    pub fn is_eof(&self) -> (r: bool)
        ensures
            r == (self@.token_type is EOF),
    {
        match self.token_type {
            TokenType::EOF => true,
            _ => false,
        }
    }

    /// Whether this token stands for text the lexer could not classify.
    pub fn is_invalid(&self) -> (r: bool)
        ensures
            r == (self@.token_type is Invalid),
    {
        match self.token_type {
            TokenType::Invalid => true,
            _ => false,
        }
    }
}

impl Clone for Token {
    fn clone(&self) -> (r: Self)
        ensures
            r@ == self@,
    {
        Token { token_type: self.token_type.clone(), range: self.range }
    }
}

/// The values of a sequence of tokens, in order.
pub open spec fn tokens_view(tokens: Seq<Token>) -> Seq<SpecToken> {
    Seq::new(tokens.len(), |i: int| tokens[i]@)
}

} // verus!
