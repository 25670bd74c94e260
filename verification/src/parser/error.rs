use crate::debugger::token::{format_kind, spec_format_kind};
use crate::token::{SpecTokenType, TokenType};
use vstd::prelude::*;

verus! {

/// What the parser looked for and did not find.
#[derive(Debug, Clone, Copy, PartialEq, Eq, Structural)]
pub enum ParseErrorKind {
    /// `let` is not followed by a name.
    ExpectedIdentifierAfterLet,
    /// The name after `let` is not followed by `=`.
    ExpectedAssign,
    /// The condition of an `if` is not followed by `then`.
    ExpectedThen,
    /// The first branch of an `if` is not followed by `else`.
    ExpectedElse,
    /// `|` is not followed by a pattern.
    ExpectedPattern,
    /// A pattern is not followed by `->`.
    ExpectedArrowAfterPattern,
    /// A `match` has no case.
    ExpectedCase,
    /// Something other than a name stands among the parameters of a function.
    ExpectedParameter,
    /// The parameters of a function are not followed by `->`.
    ExpectedArrowAfterParameters,
    ExpectedRightBracket,
    ExpectedRightParen,
    ExpectedRightBrace,
    /// The name of a field is not followed by `:`.
    ExpectedColon,
    /// Something other than a name stands where a field of a record begins.
    ExpectedFieldName,
    /// `.` is not followed by a name.
    ExpectedFieldAfterDot,
    /// A slice has neither a start nor an end.
    ExpectedSliceBound,
    /// The brackets of an index are empty.
    ExpectedIndex,
    /// No expression begins with this token.
    UnexpectedToken,
    /// A part of an expression took no token. `Parser::parse` never fails so.
    NoProgress,
}

/// Why a text is not a program: what was looked for, at which token, and what stands there.
#[derive(Debug, PartialEq)]
pub struct ParseError {
    pub kind: ParseErrorKind,
    /// The index of the token, among those given to the parser.
    pub position: usize,
    /// The token there; `EOF` beyond the last one.
    pub found: TokenType,
}

/// The mathematical value of a [`ParseError`].
pub struct SpecParseError {
    pub kind: ParseErrorKind,
    pub position: int,
    pub found: SpecTokenType,
}

impl ParseError {
    pub open spec fn view(&self) -> SpecParseError {
        SpecParseError { kind: self.kind, position: self.position as int, found: self.found@ }
    }
}

impl Clone for ParseError {
    fn clone(&self) -> (r: Self)
        ensures
            r@ == self@,
    {
        ParseError { kind: self.kind, position: self.position, found: self.found.clone() }
    }
}

/// What a kind of failure says of itself.
pub open spec fn spec_describe(kind: ParseErrorKind) -> Seq<char> {
    match kind {
        ParseErrorKind::ExpectedIdentifierAfterLet => "Expected identifier after 'let'"@,
        ParseErrorKind::ExpectedAssign => "Expected '=' after identifier"@,
        ParseErrorKind::ExpectedThen => "Expected 'then' after 'if' condition"@,
        ParseErrorKind::ExpectedElse => "Expected 'else' after 'then' branch"@,
        ParseErrorKind::ExpectedPattern => "Expected pattern after '|'"@,
        ParseErrorKind::ExpectedArrowAfterPattern => "Expected '->' after pattern"@,
        ParseErrorKind::ExpectedCase => "Expected at least one case after 'match'"@,
        ParseErrorKind::ExpectedParameter => "Expected identifier in function arguments"@,
        ParseErrorKind::ExpectedArrowAfterParameters => "Expected '->' after function arguments"@,
        ParseErrorKind::ExpectedRightBracket => "Expected ']'"@,
        ParseErrorKind::ExpectedRightParen => "Expected ')'"@,
        ParseErrorKind::ExpectedRightBrace => "Expected '}'"@,
        ParseErrorKind::ExpectedColon => "Expected ':' after field name"@,
        ParseErrorKind::ExpectedFieldName => "Expected identifier for field name"@,
        ParseErrorKind::ExpectedFieldAfterDot => "Expected identifier after '.'"@,
        ParseErrorKind::ExpectedSliceBound => "Expected start or end for slice"@,
        ParseErrorKind::ExpectedIndex => "Expected index for list access"@,
        ParseErrorKind::UnexpectedToken => "Expected identifier, number, string, true, false, or '('"@,
        ParseErrorKind::NoProgress => "No token was read"@,
    }
}

/// What a failure says of itself: that a statement could not be read, what was looked for,
/// and the token that stands there.
pub open spec fn spec_parse_message(e: SpecParseError) -> Seq<char> {
    "Error parsing statement: "@ + spec_describe(e.kind) + " but found: "@ + spec_format_kind(e.found)
}

/// What a kind of failure says of itself.
pub fn describe(kind: ParseErrorKind) -> (s: String)
    ensures
        s@ == spec_describe(kind),
{
    match kind {
        ParseErrorKind::ExpectedIdentifierAfterLet => String::from_str("Expected identifier after 'let'"),
        ParseErrorKind::ExpectedAssign => String::from_str("Expected '=' after identifier"),
        ParseErrorKind::ExpectedThen => String::from_str("Expected 'then' after 'if' condition"),
        ParseErrorKind::ExpectedElse => String::from_str("Expected 'else' after 'then' branch"),
        ParseErrorKind::ExpectedPattern => String::from_str("Expected pattern after '|'"),
        ParseErrorKind::ExpectedArrowAfterPattern => String::from_str("Expected '->' after pattern"),
        ParseErrorKind::ExpectedCase => String::from_str("Expected at least one case after 'match'"),
        ParseErrorKind::ExpectedParameter => String::from_str("Expected identifier in function arguments"),
        ParseErrorKind::ExpectedArrowAfterParameters => String::from_str(
            "Expected '->' after function arguments",
        ),
        ParseErrorKind::ExpectedRightBracket => String::from_str("Expected ']'"),
        ParseErrorKind::ExpectedRightParen => String::from_str("Expected ')'"),
        ParseErrorKind::ExpectedRightBrace => String::from_str("Expected '}'"),
        ParseErrorKind::ExpectedColon => String::from_str("Expected ':' after field name"),
        ParseErrorKind::ExpectedFieldName => String::from_str("Expected identifier for field name"),
        ParseErrorKind::ExpectedFieldAfterDot => String::from_str("Expected identifier after '.'"),
        ParseErrorKind::ExpectedSliceBound => String::from_str("Expected start or end for slice"),
        ParseErrorKind::ExpectedIndex => String::from_str("Expected index for list access"),
        ParseErrorKind::UnexpectedToken => String::from_str(
            "Expected identifier, number, string, true, false, or '('",
        ),
        ParseErrorKind::NoProgress => String::from_str("No token was read"),
    }
}

impl ParseError {
    /// What this failure says of itself, for a reader.
    pub fn message(&self) -> (s: String)
        ensures
            s@ == spec_parse_message(self@),
    {
        let mut s = String::from_str("Error parsing statement: ");
        s.append(describe(self.kind).as_str());
        s.append(" but found: ");
        s.append(format_kind(&self.found).as_str());
        s
    }
}

} // verus!
