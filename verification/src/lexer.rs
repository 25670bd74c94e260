use crate::text::{alphabetic, chars_of, digit, is_digit, numeric, string_of, whitespace};
use crate::token::{Position, Range, SpecToken, SpecTokenType, Token, TokenType, tokens_view};
use vstd::prelude::*;

verus! {

/// The line, counted from 1, of the character at index `pos` of `s`:
/// one more than the number of newlines before it.
pub open spec fn line_at(s: Seq<char>, pos: int) -> int
    decreases pos,
{
    if pos <= 0 {
        1
    } else if s[pos - 1] == '\n' {
        line_at(s, pos - 1) + 1
    } else {
        line_at(s, pos - 1)
    }
}

/// The column, counted from 1, of the character at index `pos` of `s`:
/// one more than the number of characters between it and the newline before it.
pub open spec fn column_at(s: Seq<char>, pos: int) -> int
    decreases pos,
{
    if pos <= 0 {
        1
    } else if s[pos - 1] == '\n' {
        1
    } else {
        column_at(s, pos - 1) + 1
    }
}

/// A count as it is held: the greatest number that can be held stands for all beyond it.
pub open spec fn held(count: int) -> usize {
    if count > usize::MAX {
        usize::MAX
    } else if count < 0 {
        0
    } else {
        count as usize
    }
}

/// The line and column of the character at index `pos` of `s`.
pub open spec fn place(s: Seq<char>, pos: int) -> Position {
    Position { line: held(line_at(s, pos)), column: held(column_at(s, pos)) }
}

/// Characters that separate tokens.
pub open spec fn blank(c: char) -> bool {
    whitespace(c) || c == '\n'
}

/// Characters that may begin an identifier or a keyword.
pub open spec fn ident_start(c: char) -> bool {
    alphabetic(c) || c == '_'
}

/// Characters that may continue an identifier or a keyword.
pub open spec fn ident_part(c: char) -> bool {
    alphabetic(c) || numeric(c) || c == '_'
}

/// Characters that begin a comment, which runs to the end of its line.
pub open spec fn comment_start(c: char) -> bool {
    c == '#' && !ident_start(c)
}

/// The first index at or after `pos` that is neither blank nor inside a comment.
/// `in_comment` says whether `pos` lies inside a comment.
pub open spec fn skip_trivia(s: Seq<char>, pos: int, in_comment: bool) -> int
    decreases s.len() - pos, if in_comment { 1nat } else { 0nat },
{
    if pos < 0 || pos >= s.len() {
        pos
    } else if in_comment {
        if s[pos] == '\n' {
            skip_trivia(s, pos, false)
        } else {
            skip_trivia(s, pos + 1, true)
        }
    } else if blank(s[pos]) {
        skip_trivia(s, pos + 1, false)
    } else if comment_start(s[pos]) {
        skip_trivia(s, pos + 1, true)
    } else {
        pos
    }
}

/// The first index at or after `pos` whose character does not continue an identifier.
pub open spec fn ident_end(s: Seq<char>, pos: int) -> int
    decreases s.len() - pos,
{
    if 0 <= pos < s.len() && ident_part(s[pos]) {
        ident_end(s, pos + 1)
    } else {
        pos
    }
}

/// The first index at or after `pos` that does not continue a number literal.
/// A `.` continues it unless another `.` follows or one was taken before (`has_dot`).
pub open spec fn number_end(s: Seq<char>, pos: int, has_dot: bool) -> int
    decreases s.len() - pos,
{
    if pos < 0 || pos >= s.len() {
        pos
    } else if is_digit(s[pos]) {
        number_end(s, pos + 1, has_dot)
    } else if s[pos] == '.' {
        if pos + 1 < s.len() && s[pos + 1] == '.' {
            pos
        } else if has_dot {
            pos
        } else {
            number_end(s, pos + 1, true)
        }
    } else {
        pos
    }
}

/// The character that an escape letter stands for, if it is one.
pub open spec fn unescape(c: char) -> Option<char> {
    if c == 'n' {
        Some('\n')
    } else if c == 't' {
        Some('\t')
    } else if c == 'r' {
        Some('\r')
    } else if c == '\\' {
        Some('\\')
    } else if c == '"' {
        Some('"')
    } else if c == '0' {
        Some('\0')
    } else {
        None
    }
}

/// Reads the rest of a string literal from `pos`, with `acc` read so far.
/// Gives the text if the closing quote is found, and the index after the last character taken.
/// An unknown escape stops after the backslash.
pub open spec fn scan_string(s: Seq<char>, pos: int, acc: Seq<char>) -> (Option<Seq<char>>, int)
    decreases s.len() - pos,
{
    if pos < 0 || pos >= s.len() {
        (None, pos)
    } else if s[pos] == '"' {
        (Some(acc), pos + 1)
    } else if s[pos] == '\\' {
        if pos + 1 >= s.len() {
            (None, pos + 1)
        } else {
            match unescape(s[pos + 1]) {
                Some(c) => scan_string(s, pos + 2, acc.push(c)),
                None => (None, pos + 1),
            }
        }
    } else {
        scan_string(s, pos + 1, acc.push(s[pos]))
    }
}

/// The token that a word stands for: a keyword, or else an identifier.
pub open spec fn word_token(text: Seq<char>) -> SpecTokenType {
    if text == "_"@ {
        SpecTokenType::Underscore
    } else if text == "let"@ {
        SpecTokenType::Let
    } else if text == "if"@ {
        SpecTokenType::If
    } else if text == "fn"@ {
        SpecTokenType::Fn
    } else if text == "then"@ {
        SpecTokenType::Then
    } else if text == "else"@ {
        SpecTokenType::Else
    } else if text == "for"@ {
        SpecTokenType::For
    } else if text == "in"@ {
        SpecTokenType::In
    } else if text == "match"@ {
        SpecTokenType::Match
    } else if text == "return"@ {
        SpecTokenType::Return
    } else if text == "and"@ {
        SpecTokenType::And
    } else if text == "or"@ {
        SpecTokenType::Or
    } else if text == "not"@ {
        SpecTokenType::Not
    } else if text == "true"@ {
        SpecTokenType::True
    } else if text == "false"@ {
        SpecTokenType::False
    } else {
        SpecTokenType::Identifier(text)
    }
}

/// The token made of punctuation that begins with `c`, where `next` is the character after it,
/// and how many characters it takes. Anything unknown is `Invalid`.
pub open spec fn symbol_token(c: char, next: Option<char>) -> (SpecTokenType, int) {
    if c == '+' {
        (SpecTokenType::Plus, 1)
    } else if c == '-' {
        if next == Some('>') {
            (SpecTokenType::Arrow, 2)
        } else {
            (SpecTokenType::Minus, 1)
        }
    } else if c == '*' {
        (SpecTokenType::Asterisk, 1)
    } else if c == '/' {
        (SpecTokenType::Slash, 1)
    } else if c == '%' {
        (SpecTokenType::Percent, 1)
    } else if c == '(' {
        (SpecTokenType::LeftParen, 1)
    } else if c == ')' {
        (SpecTokenType::RightParen, 1)
    } else if c == '{' {
        (SpecTokenType::LeftBrace, 1)
    } else if c == '}' {
        (SpecTokenType::RightBrace, 1)
    } else if c == '[' {
        (SpecTokenType::LeftBracket, 1)
    } else if c == ']' {
        (SpecTokenType::RightBracket, 1)
    } else if c == ',' {
        (SpecTokenType::Comma, 1)
    } else if c == '.' {
        if next == Some('.') {
            (SpecTokenType::DotDot, 2)
        } else {
            (SpecTokenType::Dot, 1)
        }
    } else if c == ':' {
        (SpecTokenType::Colon, 1)
    } else if c == '=' {
        if next == Some('=') {
            (SpecTokenType::Equal, 2)
        } else {
            (SpecTokenType::Assign, 1)
        }
    } else if c == '!' {
        if next == Some('=') {
            (SpecTokenType::NotEqual, 2)
        } else {
            (SpecTokenType::Invalid, 1)
        }
    } else if c == '<' {
        if next == Some('=') {
            (SpecTokenType::LessThanOrEqual, 2)
        } else {
            (SpecTokenType::LessThan, 1)
        }
    } else if c == '>' {
        if next == Some('=') {
            (SpecTokenType::GreaterThanOrEqual, 2)
        } else {
            (SpecTokenType::GreaterThan, 1)
        }
    } else if c == '|' {
        if next == Some('>') {
            (SpecTokenType::ForwardPipe, 2)
        } else {
            (SpecTokenType::Pipe, 1)
        }
    } else {
        (SpecTokenType::Invalid, 1)
    }
}

/// The character after index `pos`, if there is one.
pub open spec fn peek_at(s: Seq<char>, pos: int) -> Option<char> {
    if 0 <= pos + 1 < s.len() {
        Some(s[pos + 1])
    } else {
        None
    }
}

/// The token that begins at index `start`, which holds a character that is neither blank
/// nor the start of a comment, and the index after its last character.
pub open spec fn scan(s: Seq<char>, start: int) -> (SpecTokenType, int) {
    let c = s[start];
    if ident_start(c) {
        let end = ident_end(s, start);
        (word_token(s.subrange(start, end)), end)
    } else if is_digit(c) {
        let end = number_end(s, start, false);
        (SpecTokenType::Number(s.subrange(start, end)), end)
    } else if c == '-' && peek_at(s, start) is Some && is_digit(peek_at(s, start)->0) {
        let end = number_end(s, start + 1, false);
        (SpecTokenType::Number(s.subrange(start, end)), end)
    } else if c == '"' {
        let (text, end) = scan_string(s, start + 1, Seq::empty());
        match text {
            Some(t) => (SpecTokenType::String(t), end),
            None => (SpecTokenType::Invalid, end),
        }
    } else {
        let (token_type, taken) = symbol_token(c, peek_at(s, start));
        (token_type, start + taken)
    }
}

/// The token that begins at index `start`, with the places of its first and last characters,
/// and the index after it.
pub open spec fn token_at(s: Seq<char>, start: int) -> (SpecToken, int) {
    let (token_type, end) = scan(s, start);
    (
        SpecToken { token_type, range: Range { start: place(s, start), end: place(s, end - 1) } },
        end,
    )
}

/// The next token of `s` at or after index `pos`, and the index at which to go on.
/// At the end of the input the token is `EOF`, and stands where the input ends.
pub open spec fn next_token_at(s: Seq<char>, pos: int) -> (SpecToken, int) {
    let start = skip_trivia(s, pos, false);
    if start >= s.len() {
        (
            SpecToken {
                token_type: SpecTokenType::EOF,
                range: Range { start: place(s, start), end: place(s, start) },
            },
            start,
        )
    } else {
        token_at(s, start)
    }
}

/// All the tokens of `s` from index `pos` on, ending with `EOF`.
pub open spec fn tokens_from(s: Seq<char>, pos: int) -> Seq<SpecToken>
    decreases s.len() - pos,
{
    let step = next_token_at(s, pos);
    if step.0.token_type is EOF || step.1 <= pos || step.1 > s.len() {
        seq![step.0]
    } else {
        seq![step.0] + tokens_from(s, step.1)
    }
}

/// A position never lies beyond what was read: line and column grow by at most one per character.
pub proof fn lemma_place_bounds(s: Seq<char>, pos: int)
    requires
        0 <= pos <= s.len(),
    ensures
        1 <= line_at(s, pos),
        1 <= column_at(s, pos),
        line_at(s, pos) + column_at(s, pos) <= pos + 2,
    decreases pos,
{
    if pos > 0 {
        lemma_place_bounds(s, pos - 1);
    }
}

/// Skipping blanks and comments never goes backwards nor past the end.
pub proof fn lemma_skip_trivia_bounds(s: Seq<char>, pos: int, in_comment: bool)
    requires
        0 <= pos <= s.len(),
    ensures
        pos <= skip_trivia(s, pos, in_comment) <= s.len(),
    decreases s.len() - pos, if in_comment { 1nat } else { 0nat },
{
    if pos < s.len() {
        if in_comment {
            if s[pos] == '\n' {
                lemma_skip_trivia_bounds(s, pos, false);
            } else {
                lemma_skip_trivia_bounds(s, pos + 1, true);
            }
        } else if blank(s[pos]) {
            lemma_skip_trivia_bounds(s, pos + 1, false);
        } else if comment_start(s[pos]) {
            lemma_skip_trivia_bounds(s, pos + 1, true);
        }
    }
}

/// An identifier ends at or after where it is looked for, within the input.
pub proof fn lemma_ident_end_bounds(s: Seq<char>, pos: int)
    requires
        0 <= pos <= s.len(),
    ensures
        pos <= ident_end(s, pos) <= s.len(),
    decreases s.len() - pos,
{
    if pos < s.len() && ident_part(s[pos]) {
        lemma_ident_end_bounds(s, pos + 1);
    }
}

/// A number literal ends at or after where it is looked for, within the input.
pub proof fn lemma_number_end_bounds(s: Seq<char>, pos: int, has_dot: bool)
    requires
        0 <= pos <= s.len(),
    ensures
        pos <= number_end(s, pos, has_dot) <= s.len(),
    decreases s.len() - pos,
{
    if pos < s.len() {
        if is_digit(s[pos]) {
            lemma_number_end_bounds(s, pos + 1, has_dot);
        } else if s[pos] == '.' && !(pos + 1 < s.len() && s[pos + 1] == '.') && !has_dot {
            lemma_number_end_bounds(s, pos + 1, true);
        }
    }
}

/// A string literal ends at or after where its body begins, within the input.
pub proof fn lemma_scan_string_bounds(s: Seq<char>, pos: int, acc: Seq<char>)
    requires
        0 <= pos <= s.len(),
    ensures
        pos <= scan_string(s, pos, acc).1 <= s.len(),
    decreases s.len() - pos,
{
    if pos < s.len() && s[pos] != '"' {
        if s[pos] == '\\' {
            if pos + 1 < s.len() {
                match unescape(s[pos + 1]) {
                    Some(c) => lemma_scan_string_bounds(s, pos + 2, acc.push(c)),
                    None => {},
                }
            }
        } else {
            lemma_scan_string_bounds(s, pos + 1, acc.push(s[pos]));
        }
    }
}

/// Every token takes at least one character, and none beyond the input.
pub proof fn lemma_scan_advances(s: Seq<char>, start: int)
    requires
        0 <= start < s.len(),
    ensures
        start < scan(s, start).1 <= s.len(),
        !(scan(s, start).0 is EOF),
{
    let c = s[start];
    if ident_start(c) {
        lemma_ident_end_bounds(s, start + 1);
    } else if is_digit(c) {
        lemma_number_end_bounds(s, start + 1, false);
    } else if c == '-' && peek_at(s, start) is Some && is_digit(peek_at(s, start)->0) {
        lemma_number_end_bounds(s, start + 1, false);
    } else if c == '"' {
        lemma_scan_string_bounds(s, start + 1, Seq::empty());
    }
}

/// Characters that tokens other than words, numbers, texts and comments begin with.
pub open spec fn punctuation(c: char) -> bool {
    c == '+' || c == '-' || c == '*' || c == '/' || c == '%' || c == '(' || c == ')' || c == '{' || c == '}'
        || c == '[' || c == ']' || c == ',' || c == '.' || c == ':' || c == '=' || c == '<' || c == '>'
        || c == '|' || c == '!'
}

/// What is not recognized is `Invalid`: a character with which no token begins makes a token
/// of its own, of kind `Invalid`, and lexing goes on after it.
pub proof fn lemma_unrecognized_is_invalid(s: Seq<char>, start: int)
    requires
        0 <= start < s.len(),
        !ident_start(s[start]),
        !is_digit(s[start]),
        !punctuation(s[start]),
        s[start] != '"',
    ensures
        scan(s, start) == (SpecTokenType::Invalid, start + 1),
{
}

/// Lexing makes progress: the next token is `EOF` exactly when only blanks and comments
/// are left, and otherwise lexing goes on strictly after where it began.
pub proof fn lemma_next_token_advances(s: Seq<char>, pos: int)
    requires
        0 <= pos <= s.len(),
    ensures
        pos <= next_token_at(s, pos).1 <= s.len(),
        next_token_at(s, pos).0.token_type is EOF <==> skip_trivia(s, pos, false) >= s.len(),
        !(next_token_at(s, pos).0.token_type is EOF) ==> pos < next_token_at(s, pos).1,
{
    lemma_skip_trivia_bounds(s, pos, false);
    let start = skip_trivia(s, pos, false);
    if start < s.len() {
        lemma_scan_advances(s, start);
    }
}

/// Lexing is total: the tokens of any input end with `EOF`, and `EOF` stands nowhere else.
pub proof fn lemma_tokens_end_with_eof(s: Seq<char>, pos: int)
    requires
        0 <= pos <= s.len(),
    ensures
        tokens_from(s, pos).len() >= 1,
        tokens_from(s, pos).last().token_type is EOF,
        forall|i: int|
            0 <= i < tokens_from(s, pos).len() - 1 ==> !(#[trigger] tokens_from(s, pos)[i].token_type is EOF),
    decreases s.len() - pos,
{
    lemma_next_token_advances(s, pos);
    let (token, next) = next_token_at(s, pos);
    if !(token.token_type is EOF) {
        lemma_tokens_end_with_eof(s, next);
        let rest = tokens_from(s, next);
        assert(tokens_from(s, pos) =~= seq![token] + rest);
        assert forall|i: int| 0 <= i < tokens_from(s, pos).len() - 1 implies !(
        #[trigger] tokens_from(s, pos)[i].token_type is EOF) by {
            if i > 0 {
                assert(tokens_from(s, pos)[i] == rest[i - 1]);
            }
        }
    }
}

/// A lexer: a cursor over the characters of a source text that hands out its tokens one by one.
pub struct Lexer {
    input: Vec<char>,
    position: usize,
    pub line: usize,
    pub column: usize,
    start: Position,
    last: Position,
}

impl Lexer {
    /// The source text, as a sequence of characters.
    pub closed spec fn source(&self) -> Seq<char> {
        self.input@
    }

    /// The index of the next character to read.
    pub closed spec fn offset(&self) -> int {
        self.position as int
    }

    /// The line and column that the lexer holds for its cursor.
    pub closed spec fn cursor(&self) -> Position {
        Position { line: self.line, column: self.column }
    }

    /// Where the token being read began.
    pub closed spec fn token_start(&self) -> Position {
        self.start
    }

    /// The place of the last character taken.
    pub closed spec fn token_last(&self) -> Position {
        self.last
    }

    /// The cursor lies within the text, and `line` and `column` are those of the cursor.
    pub closed spec fn wf(&self) -> bool {
        &&& self.position <= self.input.len()
        &&& self.line == held(line_at(self.input@, self.position as int))
        &&& self.column == held(column_at(self.input@, self.position as int))
    }

    /// A lexer at the beginning of `input`.
    pub fn new(input: &str) -> (lexer: Lexer)
        ensures
            lexer.wf(),
            lexer.source() == input@,
            lexer.offset() == 0,
            lexer.cursor() == (Position { line: 1, column: 1 }),
    {
        Lexer {
            input: chars_of(input),
            position: 0,
            line: 1,
            column: 1,
            start: Position { line: 1, column: 1 },
            last: Position { line: 1, column: 1 },
        }
    }

    /// The character under the cursor.
    pub fn current_char(&self) -> (c: char)
        requires
            self.wf(),
            self.offset() < self.source().len(),
        ensures
            c == self.source()[self.offset()],
    {
        self.input[self.position]
    }

    /// The character after the one under the cursor, if there is one.
    pub fn peek_char(&self) -> (c: Option<char>)
        requires
            self.wf(),
        ensures
            c == peek_at(self.source(), self.offset()),
    {
        if self.position < self.input.len() && self.position + 1 < self.input.len() {
            Some(self.input[self.position + 1])
        } else {
            None
        }
    }

    /// Moves the cursor over `num` characters, or to the end of the text if fewer are left,
    /// keeping line and column. `last` becomes the place of the last step.
    pub fn consume(&mut self, num: usize)
        requires
            old(self).wf(),
        ensures
            final(self).wf(),
            final(self).source() == old(self).source(),
            final(self).offset() == if old(self).offset() + num <= old(self).source().len() {
                old(self).offset() + num
            } else {
                old(self).source().len() as int
            },
            final(self).token_start() == old(self).token_start(),
            num > 0 ==> final(self).token_last() == place(
                old(self).source(),
                if old(self).offset() + num - 1 <= old(self).source().len() {
                    old(self).offset() + num - 1
                } else {
                    old(self).source().len() as int
                },
            ),
            num == 0 ==> final(self).token_last() == old(self).token_last(),
    {
        let mut i: usize = 0;
        while i < num
            invariant
                self.wf(),
                self.input@ == old(self).input@,
                self.start == old(self).start,
                i <= num,
                self.position == if old(self).position + i <= self.input.len() {
                    (old(self).position + i) as usize
                } else {
                    self.input.len()
                },
                i > 0 ==> self.last == place(
                    self.input@,
                    if old(self).position + i - 1 <= self.input.len() {
                        old(self).position + i - 1
                    } else {
                        self.input.len() as int
                    },
                ),
                i == 0 ==> self.last == old(self).last,
            decreases num - i,
        {
            proof {
                lemma_place_bounds(self.input@, self.position as int);
            }
            self.last = Position { line: self.line, column: self.column };
            if self.position < self.input.len() {
                let current_char = self.input[self.position];
                proof {
                    lemma_place_bounds(self.input@, self.position as int + 1);
                }
                self.position += 1;
                if current_char == '\n' {
                    if self.line < usize::MAX {
                        self.line += 1;
                    }
                    self.column = 1;
                } else if self.column < usize::MAX {
                    self.column += 1;
                }
            }
            i += 1;
        }
    }

    /// Moves the cursor over the blanks under it.
    pub fn skip_whitespace(&mut self)
        requires
            old(self).wf(),
        ensures
            final(self).wf(),
            final(self).source() == old(self).source(),
            old(self).offset() <= final(self).offset() <= final(self).source().len(),
            final(self).offset() < final(self).source().len() ==> !blank(
                final(self).source()[final(self).offset()],
            ),
            skip_trivia(final(self).source(), final(self).offset(), false) == skip_trivia(
                old(self).source(),
                old(self).offset(),
                false,
            ),
    {
        while self.position < self.input.len() && (self.input[self.position].is_whitespace()
            || self.input[self.position] == '\n')
            invariant
                self.wf(),
                self.input@ == old(self).input@,
                old(self).position <= self.position <= self.input.len(),
                skip_trivia(self.input@, self.position as int, false) == skip_trivia(
                    self.input@,
                    old(self).position as int,
                    false,
                ),
            decreases self.input.len() - self.position,
        {
            self.consume(1);
        }
    }

    /// Moves the cursor to the end of the identifier or keyword under it, and gives its text.
    pub fn read_identifier(&mut self) -> (text: String)
        requires
            old(self).wf(),
        ensures
            final(self).wf(),
            final(self).source() == old(self).source(),
            final(self).offset() == ident_end(old(self).source(), old(self).offset()),
            text@ == old(self).source().subrange(old(self).offset(), final(self).offset()),
            final(self).token_start() == old(self).token_start(),
            final(self).offset() > old(self).offset() ==> final(self).token_last() == place(
                final(self).source(),
                final(self).offset() - 1,
            ),
            final(self).offset() == old(self).offset() ==> final(self).token_last() == old(self).token_last(),
    {
        let start_pos = self.position;
        while self.position < self.input.len() && (self.input[self.position].is_alphabetic()
            || self.input[self.position].is_numeric() || self.input[self.position] == '_')
            invariant
                self.wf(),
                self.input@ == old(self).input@,
                self.start == old(self).start,
                start_pos == old(self).position,
                start_pos <= self.position <= self.input.len(),
                ident_end(self.input@, self.position as int) == ident_end(self.input@, start_pos as int),
                self.position > start_pos ==> self.last == place(self.input@, self.position - 1),
                self.position == start_pos ==> self.last == old(self).last,
            decreases self.input.len() - self.position,
        {
            self.consume(1);
        }
        string_of(&self.input, start_pos, self.position)
    }

    /// Moves the cursor to the end of the number literal under it, and gives its text.
    pub fn read_number(&mut self) -> (text: String)
        requires
            old(self).wf(),
        ensures
            final(self).wf(),
            final(self).source() == old(self).source(),
            final(self).offset() == number_end(old(self).source(), old(self).offset(), false),
            text@ == old(self).source().subrange(old(self).offset(), final(self).offset()),
            final(self).token_start() == old(self).token_start(),
            final(self).offset() > old(self).offset() ==> final(self).token_last() == place(
                final(self).source(),
                final(self).offset() - 1,
            ),
            final(self).offset() == old(self).offset() ==> final(self).token_last() == old(self).token_last(),
    {
        let start_pos = self.position;
        let mut has_dot = false;
        while self.position < self.input.len()
            invariant
                self.wf(),
                self.input@ == old(self).input@,
                self.start == old(self).start,
                start_pos == old(self).position,
                start_pos <= self.position <= self.input.len(),
                number_end(self.input@, self.position as int, has_dot) == number_end(
                    self.input@,
                    start_pos as int,
                    false,
                ),
                self.position > start_pos ==> self.last == place(self.input@, self.position - 1),
                self.position == start_pos ==> self.last == old(self).last,
            ensures
                self.position == number_end(self.input@, start_pos as int, false),
            decreases self.input.len() - self.position,
        {
            let c = self.input[self.position];
            if digit(c) {
                self.consume(1);
            } else if c == '.' {
                if let Some('.') = self.peek_char() {
                    break ;
                }
                if has_dot {
                    break ;
                }
                has_dot = true;
                self.consume(1);
            } else {
                break ;
            }
        }
        string_of(&self.input, start_pos, self.position)
    }

    /// The token of kind `token_type` that spans what was read since the token began.
    pub fn token(&self, token_type: TokenType) -> (tok: Token)
        ensures
            tok.token_type == token_type,
            tok.range == (Range { start: self.token_start(), end: self.token_last() }),
    {
        Token { token_type, range: Range { start: self.start, end: self.last } }
    }

    /// Reads the identifier or keyword under the cursor.
    fn lex_word(&mut self) -> (tok: Token)
        requires
            old(self).wf(),
            old(self).offset() < old(self).source().len(),
            ident_start(old(self).source()[old(self).offset()]),
            old(self).token_start() == place(old(self).source(), old(self).offset()),
        ensures
            final(self).wf(),
            final(self).source() == old(self).source(),
            tok@ == token_at(old(self).source(), old(self).offset()).0,
            final(self).offset() == token_at(old(self).source(), old(self).offset()).1,
    {
        proof {
            lemma_ident_end_bounds(self.input@, self.position as int + 1);
        }
        let identifier = self.read_identifier();
        let token_type = if same_text(&identifier, "_") {
            TokenType::Underscore
        } else if same_text(&identifier, "let") {
            TokenType::Let
        } else if same_text(&identifier, "if") {
            TokenType::If
        } else if same_text(&identifier, "fn") {
            TokenType::Fn
        } else if same_text(&identifier, "then") {
            TokenType::Then
        } else if same_text(&identifier, "else") {
            TokenType::Else
        } else if same_text(&identifier, "for") {
            TokenType::For
        } else if same_text(&identifier, "in") {
            TokenType::In
        } else if same_text(&identifier, "match") {
            TokenType::Match
        } else if same_text(&identifier, "return") {
            TokenType::Return
        } else if same_text(&identifier, "and") {
            TokenType::And
        } else if same_text(&identifier, "or") {
            TokenType::Or
        } else if same_text(&identifier, "not") {
            TokenType::Not
        } else if same_text(&identifier, "true") {
            TokenType::True
        } else if same_text(&identifier, "false") {
            TokenType::False
        } else {
            TokenType::Identifier(identifier)
        };
        self.token(token_type)
    }

    /// Reads the number literal under the cursor; `negative` says that it begins with a `-`.
    fn lex_number(&mut self, negative: bool) -> (tok: Token)
        requires
            old(self).wf(),
            old(self).offset() < old(self).source().len(),
            !ident_start(old(self).source()[old(self).offset()]),
            !negative ==> is_digit(old(self).source()[old(self).offset()]),
            negative ==> old(self).source()[old(self).offset()] == '-' && peek_at(
                old(self).source(),
                old(self).offset(),
            ) is Some && is_digit(peek_at(old(self).source(), old(self).offset())->0),
            old(self).token_start() == place(old(self).source(), old(self).offset()),
        ensures
            final(self).wf(),
            final(self).source() == old(self).source(),
            tok@ == token_at(old(self).source(), old(self).offset()).0,
            final(self).offset() == token_at(old(self).source(), old(self).offset()).1,
    {
        let start_pos = self.position;
        if negative {
            self.consume(1);
        }
        proof {
            lemma_number_end_bounds(self.input@, self.position as int + 1, false);
        }
        let digits = self.read_number();
        let text = if negative {
            string_of(&self.input, start_pos, self.position)
        } else {
            digits
        };
        self.token(TokenType::Number(text))
    }

    /// Reads the string literal whose opening quote is under the cursor.
    fn lex_string(&mut self) -> (tok: Token)
        requires
            old(self).wf(),
            old(self).offset() < old(self).source().len(),
            !ident_start(old(self).source()[old(self).offset()]),
            old(self).source()[old(self).offset()] == '"',
            old(self).token_start() == place(old(self).source(), old(self).offset()),
        ensures
            final(self).wf(),
            final(self).source() == old(self).source(),
            tok@ == token_at(old(self).source(), old(self).offset()).0,
            final(self).offset() == token_at(old(self).source(), old(self).offset()).1,
    {
        let ghost s = self.input@;
        let ghost begin = self.position as int;
        self.consume(1);
        let mut result = String::new();
        while self.position < self.input.len() && self.input[self.position] != '"'
            invariant
                self.wf(),
                self.input@ == s,
                s == old(self).input@,
                begin == old(self).position,
                s[begin] == '"',
                !ident_start(s[begin]),
                self.start == place(s, begin),
                self.start == old(self).start,
                begin < self.position <= s.len(),
                self.last == place(s, self.position - 1),
                scan_string(s, self.position as int, result@) == scan_string(s, begin + 1, Seq::empty()),
            decreases self.input.len() - self.position,
        {
            let c = self.input[self.position];
            if c == '\\' {
                self.consume(1);
                if self.position >= self.input.len() {
                    return self.token(TokenType::Invalid);
                }
                let esc = self.input[self.position];
                let escaped_char = if esc == 'n' {
                    '\n'
                } else if esc == 't' {
                    '\t'
                } else if esc == 'r' {
                    '\r'
                } else if esc == '\\' {
                    '\\'
                } else if esc == '"' {
                    '"'
                } else if esc == '0' {
                    '\0'
                } else {
                    return self.token(TokenType::Invalid);
                };
                result.push(escaped_char);
            } else {
                result.push(c);
            }
            self.consume(1);
        }
        if self.position < self.input.len() {
            self.consume(1);
            self.token(TokenType::String(result))
        } else {
            self.token(TokenType::Invalid)
        }
    }

    /// Reads the punctuation under the cursor.
    fn lex_symbol(&mut self) -> (tok: Token)
        requires
            old(self).wf(),
            old(self).offset() < old(self).source().len(),
            !ident_start(old(self).source()[old(self).offset()]),
            !is_digit(old(self).source()[old(self).offset()]),
            !(old(self).source()[old(self).offset()] == '-' && peek_at(
                old(self).source(),
                old(self).offset(),
            ) is Some && is_digit(peek_at(old(self).source(), old(self).offset())->0)),
            old(self).source()[old(self).offset()] != '"',
            old(self).token_start() == place(old(self).source(), old(self).offset()),
        ensures
            final(self).wf(),
            final(self).source() == old(self).source(),
            tok@ == token_at(old(self).source(), old(self).offset()).0,
            final(self).offset() == token_at(old(self).source(), old(self).offset()).1,
    {
        let c = self.input[self.position];
        let next = self.peek_char();
        let (token_type, taken): (TokenType, usize) = if c == '+' {
            (TokenType::Plus, 1)
        } else if c == '-' {
            if let Some('>') = next {
                (TokenType::Arrow, 2)
            } else {
                (TokenType::Minus, 1)
            }
        } else if c == '*' {
            (TokenType::Asterisk, 1)
        } else if c == '/' {
            (TokenType::Slash, 1)
        } else if c == '%' {
            (TokenType::Percent, 1)
        } else if c == '(' {
            (TokenType::LeftParen, 1)
        } else if c == ')' {
            (TokenType::RightParen, 1)
        } else if c == '{' {
            (TokenType::LeftBrace, 1)
        } else if c == '}' {
            (TokenType::RightBrace, 1)
        } else if c == '[' {
            (TokenType::LeftBracket, 1)
        } else if c == ']' {
            (TokenType::RightBracket, 1)
        } else if c == ',' {
            (TokenType::Comma, 1)
        } else if c == '.' {
            if let Some('.') = next {
                (TokenType::DotDot, 2)
            } else {
                (TokenType::Dot, 1)
            }
        } else if c == ':' {
            (TokenType::Colon, 1)
        } else if c == '=' {
            if let Some('=') = next {
                (TokenType::Equal, 2)
            } else {
                (TokenType::Assign, 1)
            }
        } else if c == '!' {
            if let Some('=') = next {
                (TokenType::NotEqual, 2)
            } else {
                (TokenType::Invalid, 1)
            }
        } else if c == '<' {
            if let Some('=') = next {
                (TokenType::LessThanOrEqual, 2)
            } else {
                (TokenType::LessThan, 1)
            }
        } else if c == '>' {
            if let Some('=') = next {
                (TokenType::GreaterThanOrEqual, 2)
            } else {
                (TokenType::GreaterThan, 1)
            }
        } else if c == '|' {
            if let Some('>') = next {
                (TokenType::ForwardPipe, 2)
            } else {
                (TokenType::Pipe, 1)
            }
        } else {
            (TokenType::Invalid, 1)
        };
        self.consume(taken);
        self.token(token_type)
    }

    /// Reads the next token: skips blanks and comments, then takes the longest token that
    /// begins under the cursor. At the end of the text the token is `EOF`, every time.
    pub fn next_token(&mut self) -> (tok: Token)
        requires
            old(self).wf(),
        ensures
            final(self).wf(),
            final(self).source() == old(self).source(),
            tok@ == next_token_at(old(self).source(), old(self).offset()).0,
            final(self).offset() == next_token_at(old(self).source(), old(self).offset()).1,
    {
        let ghost s = self.input@;
        let ghost begin = self.position as int;
        loop
            invariant
                self.wf(),
                self.input@ == s,
                s == old(self).input@,
                begin == old(self).position,
                begin <= self.position <= s.len(),
                skip_trivia(s, self.position as int, false) == skip_trivia(s, begin, false),
            decreases s.len() - self.position,
        {
            let ghost head = self.position;
            self.skip_whitespace();
            proof {
                lemma_place_bounds(s, self.position as int);
            }
            self.start = Position { line: self.line, column: self.column };
            self.last = Position { line: self.line, column: self.column };
            if self.position >= self.input.len() {
                return self.token(TokenType::EOF);
            }
            let current_char = self.input[self.position];
            if current_char.is_alphabetic() || current_char == '_' {
                return self.lex_word();
            }
            if digit(current_char) {
                return self.lex_number(false);
            }
            if current_char == '#' {
                self.consume(1);
                while self.position < self.input.len() && self.input[self.position] != '\n'
                    invariant
                        self.wf(),
                        self.input@ == s,
                        begin <= head < self.position <= s.len(),
                        skip_trivia(s, self.position as int, true) == skip_trivia(s, begin, false),
                    decreases s.len() - self.position,
                {
                    self.consume(1);
                }
                continue ;
            }
            if current_char == '-' {
                if let Some(c) = self.peek_char() {
                    if digit(c) {
                        return self.lex_number(true);
                    }
                }
            }
            if current_char == '"' {
                return self.lex_string();
            }
            return self.lex_symbol();
        }
    }
}

/// Whether a string holds exactly the text `lit`.
pub fn same_text(s: &String, lit: &str) -> (r: bool)
    ensures
        r == (s@ == lit@),
{
    let other = String::from_str(lit);
    *s == other
}

/// All the tokens of a source text, in order, ending with `EOF`.
///
/// Lexing is total: whatever the text holds, the result ends with `EOF`, which stands nowhere
/// else in it; what cannot be classified becomes `Invalid`.
pub fn tokenize(input: &str) -> (tokens: Vec<Token>)
    ensures
        tokens_view(tokens@) == tokens_from(input@, 0),
        tokens.len() >= 1,
        tokens@.last()@.token_type is EOF,
        forall|i: int| 0 <= i < tokens.len() - 1 ==> !(#[trigger] tokens@[i]@.token_type is EOF),
{
    let mut lexer = Lexer::new(input);
    let mut tokens: Vec<Token> = Vec::new();
    let ghost s = input@;
    loop
        invariant
            lexer.wf(),
            lexer.source() == s,
            s == input@,
            0 <= lexer.offset() <= s.len(),
            tokens_view(tokens@) + tokens_from(s, lexer.offset()) == tokens_from(s, 0),
        decreases s.len() - lexer.offset(),
    {
        let ghost before = lexer.offset();
        let ghost so_far = tokens_view(tokens@);
        proof {
            lemma_next_token_advances(s, before);
        }
        let token = lexer.next_token();
        let done = token.is_eof();
        tokens.push(token);
        proof {
            assert(tokens_view(tokens@) =~= so_far.push(token@));
            if done {
                assert(tokens_from(s, before) =~= seq![token@]);
                assert(so_far.push(token@) =~= so_far + seq![token@]);
            } else {
                assert(tokens_from(s, before) =~= seq![token@] + tokens_from(s, lexer.offset()));
                assert(so_far.push(token@) + tokens_from(s, lexer.offset()) =~= so_far + (seq![token@]
                    + tokens_from(s, lexer.offset())));
            }
        }
        if done {
            proof {
                lemma_tokens_end_with_eof(s, 0);
                assert(tokens_view(tokens@) == tokens_from(s, 0));
                assert(tokens_view(tokens@).len() == tokens.len());
                assert(tokens@.last()@ == tokens_view(tokens@).last());
                assert forall|i: int| 0 <= i < tokens.len() - 1 implies !(
                #[trigger] tokens@[i]@.token_type is EOF) by {
                    assert(tokens@[i]@ == tokens_view(tokens@)[i]);
                }
            }
            return tokens;
        }
    }
}

} // verus!
