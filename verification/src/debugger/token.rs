use crate::eval::error::{decimal, spec_decimal};
use crate::token::{tokens_view, SpecToken, SpecTokenType, Token, TokenType};
use vstd::prelude::*;

verus! {

/// How the kind of a token is shown to a reader: its name, and in parentheses how it is written.
pub open spec fn spec_format_kind(t: SpecTokenType) -> Seq<char> {
    match t {
        SpecTokenType::Let => "Let (let)"@,
        SpecTokenType::If => "If (if)"@,
        SpecTokenType::Then => "Then (then)"@,
        SpecTokenType::Else => "Else (else)"@,
        SpecTokenType::For => "For (for)"@,
        SpecTokenType::Fn => "Fn (fn)"@,
        SpecTokenType::In => "In (in)"@,
        SpecTokenType::Match => "Match (match)"@,
        SpecTokenType::Pipe => "Pipe (|)"@,
        SpecTokenType::Underscore => "Underscore (_)"@,
        SpecTokenType::ForwardPipe => "ForwardPipe (|>)"@,
        SpecTokenType::Arrow => "Arrow (->)"@,
        SpecTokenType::Return => "Return (return)"@,
        SpecTokenType::Assign => "Assign (=)"@,
        SpecTokenType::Equal => "Equal (==)"@,
        SpecTokenType::NotEqual => "NotEqual (!=)"@,
        SpecTokenType::LessThan => "LessThan (<)"@,
        SpecTokenType::LessThanOrEqual => "LessThanOrEqual (<=)"@,
        SpecTokenType::GreaterThan => "GreaterThan (>)"@,
        SpecTokenType::GreaterThanOrEqual => "GreaterThanOrEqual (>=)"@,
        SpecTokenType::And => "And (and)"@,
        SpecTokenType::Or => "Or (or)"@,
        SpecTokenType::Not => "Not (not)"@,
        SpecTokenType::True => "True (true)"@,
        SpecTokenType::False => "False (false)"@,
        SpecTokenType::Comma => "Comma (,)"@,
        SpecTokenType::Dot => "Dot (.)"@,
        SpecTokenType::DotDot => "DotDot (..)"@,
        SpecTokenType::Colon => "Colon (:)"@,
        SpecTokenType::LeftParen => "LeftParen (()"@,
        SpecTokenType::RightParen => "RightParen ())"@,
        SpecTokenType::LeftBracket => "LeftBracket ([)"@,
        SpecTokenType::RightBracket => "RightBracket (])"@,
        SpecTokenType::LeftBrace => "LeftBrace ({)"@,
        SpecTokenType::RightBrace => "RightBrace (})"@,
        SpecTokenType::Plus => "Plus (+)"@,
        SpecTokenType::Minus => "Minus (-)"@,
        SpecTokenType::Asterisk => "Asterisk (*)"@,
        SpecTokenType::Slash => "Slash (/)"@,
        SpecTokenType::Percent => "Percent (%)"@,
        SpecTokenType::Invalid => "Invalid"@,
        SpecTokenType::EOF => "EOF"@,
        SpecTokenType::Identifier(s) => "Identifier ("@ + s + ")"@,
        SpecTokenType::Number(n) => "Number ("@ + n + ")"@,
        SpecTokenType::String(s) => "String (\""@ + s + "\")"@,
    }
}

/// How the kind of a token is shown to a reader.
pub fn format_kind(t: &TokenType) -> (s: String)
    ensures
        s@ == spec_format_kind(t@),
{
    match t {
        TokenType::Let => String::from_str("Let (let)"),
        TokenType::If => String::from_str("If (if)"),
        TokenType::Then => String::from_str("Then (then)"),
        TokenType::Else => String::from_str("Else (else)"),
        TokenType::For => String::from_str("For (for)"),
        TokenType::Fn => String::from_str("Fn (fn)"),
        TokenType::In => String::from_str("In (in)"),
        TokenType::Match => String::from_str("Match (match)"),
        TokenType::Pipe => String::from_str("Pipe (|)"),
        TokenType::Underscore => String::from_str("Underscore (_)"),
        TokenType::ForwardPipe => String::from_str("ForwardPipe (|>)"),
        TokenType::Arrow => String::from_str("Arrow (->)"),
        TokenType::Return => String::from_str("Return (return)"),
        TokenType::Assign => String::from_str("Assign (=)"),
        TokenType::Equal => String::from_str("Equal (==)"),
        TokenType::NotEqual => String::from_str("NotEqual (!=)"),
        TokenType::LessThan => String::from_str("LessThan (<)"),
        TokenType::LessThanOrEqual => String::from_str("LessThanOrEqual (<=)"),
        TokenType::GreaterThan => String::from_str("GreaterThan (>)"),
        TokenType::GreaterThanOrEqual => String::from_str("GreaterThanOrEqual (>=)"),
        TokenType::And => String::from_str("And (and)"),
        TokenType::Or => String::from_str("Or (or)"),
        TokenType::Not => String::from_str("Not (not)"),
        TokenType::True => String::from_str("True (true)"),
        TokenType::False => String::from_str("False (false)"),
        TokenType::Comma => String::from_str("Comma (,)"),
        TokenType::Dot => String::from_str("Dot (.)"),
        TokenType::DotDot => String::from_str("DotDot (..)"),
        TokenType::Colon => String::from_str("Colon (:)"),
        TokenType::LeftParen => String::from_str("LeftParen (()"),
        TokenType::RightParen => String::from_str("RightParen ())"),
        TokenType::LeftBracket => String::from_str("LeftBracket ([)"),
        TokenType::RightBracket => String::from_str("RightBracket (])"),
        TokenType::LeftBrace => String::from_str("LeftBrace ({)"),
        TokenType::RightBrace => String::from_str("RightBrace (})"),
        TokenType::Plus => String::from_str("Plus (+)"),
        TokenType::Minus => String::from_str("Minus (-)"),
        TokenType::Asterisk => String::from_str("Asterisk (*)"),
        TokenType::Slash => String::from_str("Slash (/)"),
        TokenType::Percent => String::from_str("Percent (%)"),
        TokenType::Invalid => String::from_str("Invalid"),
        TokenType::EOF => String::from_str("EOF"),
        TokenType::Identifier(s) => {
            let mut r = String::from_str("Identifier (");
            r.append(s.as_str());
            r.append(")");
            r
        },
        TokenType::Number(n) => {
            let mut r = String::from_str("Number (");
            r.append(n.as_str());
            r.append(")");
            r
        },
        TokenType::String(s) => {
            let mut r = String::from_str("String (\"");
            r.append(s.as_str());
            r.append("\")");
            r
        },
    }
}

/// How a token is shown to a reader.
pub fn format_token(token: &Token) -> (s: String)
    ensures
        s@ == spec_format_kind(token@.token_type),
{
    format_kind(&token.token_type)
}

/// `text` after as many spaces as it takes to make it `width` characters long.
pub open spec fn padded(text: Seq<char>, width: nat) -> Seq<char>
    decreases width - text.len(),
{
    if text.len() >= width {
        text
    } else {
        padded(seq![' '] + text, width)
    }
}

/// The line that shows token number `i`: the number, in four columns at least, a colon and
/// the token.
pub open spec fn token_line(tokens: Seq<SpecToken>, i: int) -> Seq<char> {
    padded(spec_decimal(i as nat), 4) + ": "@ + spec_format_kind(tokens[i].token_type)
}

/// `text` after as many spaces as it takes to make it `width` characters long.
fn pad(text: String, width: usize) -> (s: String)
    ensures
        s@ == padded(text@, width as nat),
{
    let mut out = text;
    let mut len = out.as_str().unicode_len();
    while len < width
        invariant
            len == out@.len(),
            padded(out@, width as nat) == padded(text@, width as nat),
        decreases width - len,
    {
        let mut longer = String::from_str(" ");
        proof {
            reveal_strlit(" ");
            assert(" "@ =~= seq![' ']);
        }
        longer.append(out.as_str());
        out = longer;
        len = len + 1;
    }
    out
}

/// The lines that show a list of tokens to a reader, one line for each token.
pub fn print_tokens(tokens: &Vec<Token>) -> (lines: Vec<String>)
    ensures
        lines.len() == tokens.len(),
        forall|i: int| 0 <= i < tokens.len() ==> (#[trigger] lines@[i])@ == token_line(tokens_view(tokens@), i),
{
    let mut lines: Vec<String> = Vec::new();
    let mut i: usize = 0;
    while i < tokens.len()
        invariant
            i <= tokens.len(),
            lines.len() == i,
            forall|j: int| 0 <= j < i ==> (#[trigger] lines@[j])@ == token_line(tokens_view(tokens@), j),
        decreases tokens.len() - i,
    {
        let mut line = pad(decimal(i), 4);
        line.append(": ");
        line.append(format_token(&tokens[i]).as_str());
        lines.push(line);
        i += 1;
    }
    lines
}

} // verus!
