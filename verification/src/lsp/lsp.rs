use crate::ast::{names_view, Expr, SpecExpr, SpecStmt, Stmt, AST};
use crate::eval::builtin::builtin::{builtin_functions, spec_builtin_functions, table_view};
use crate::lexer::{lemma_next_token_advances, next_token_at, Lexer};
use crate::lsp::keyword::{keywords, keywords_view, spec_keywords};
use crate::parser::grammar::parse_program;
use crate::parser::Parser;
use crate::token::{tokens_view, SpecToken, Token};
use vstd::prelude::*;

verus! {

/// What a suggestion stands for.
#[derive(Debug, Clone, Copy, PartialEq, Eq, Structural)]
pub enum SuggestionKind {
    Function,
    Value,
    Keyword,
    Variable,
}

/// What an editor offers to complete a word with.
#[derive(Debug, PartialEq)]
pub struct Suggestion {
    pub label: String,
    pub kind: SuggestionKind,
    pub detail: String,
}

/// The mathematical value of a [`Suggestion`].
pub struct SpecSuggestion {
    pub label: Seq<char>,
    pub kind: SuggestionKind,
    pub detail: Seq<char>,
}

impl Suggestion {
    pub open spec fn view(&self) -> SpecSuggestion {
        SpecSuggestion { label: self.label@, kind: self.kind, detail: self.detail@ }
    }
}

impl Clone for Suggestion {
    fn clone(&self) -> (r: Self)
        ensures
            r@ == self@,
    {
        Suggestion { label: self.label.clone(), kind: self.kind, detail: self.detail.clone() }
    }
}

/// The values of a sequence of suggestions, in order.
pub open spec fn suggestions_view(items: Seq<Suggestion>) -> Seq<SpecSuggestion> {
    Seq::new(items.len(), |i: int| items[i]@)
}

/// The suggestions that hold whatever the text: the builtin functions, the two booleans,
/// and the keywords.
pub open spec fn spec_builtin_items() -> Seq<SpecSuggestion> {
    Seq::new(
        spec_builtin_functions().len(),
        |i: int|
            SpecSuggestion {
                label: spec_builtin_functions()[i].0,
                kind: SuggestionKind::Function,
                detail: "Builtin function"@,
            },
    ) + seq![
        SpecSuggestion { label: "true"@, kind: SuggestionKind::Value, detail: "true"@ },
        SpecSuggestion { label: "false"@, kind: SuggestionKind::Value, detail: "false"@ },
    ] + Seq::new(
        spec_keywords().len(),
        |i: int| SpecSuggestion { label: spec_keywords()[i].0, kind: SuggestionKind::Keyword, detail: "Keyword"@ },
    )
}

/// The names from index `from` on, each between quotes, with `, ` between them.
pub open spec fn quoted_names(names: Seq<Seq<char>>, from: int) -> Seq<char>
    decreases names.len() - from,
{
    if from < 0 || from >= names.len() {
        Seq::empty()
    } else if from + 1 == names.len() {
        "\""@ + names[from] + "\""@
    } else {
        "\""@ + names[from] + "\", "@ + quoted_names(names, from + 1)
    }
}

/// The suggestion for a name that a `let` declares: a function with its parameters where it
/// is bound to a function literal, and else a variable.
pub open spec fn spec_declared(name: Seq<char>, val: SpecExpr) -> SpecSuggestion {
    match val {
        SpecExpr::Func { params, body } => SpecSuggestion {
            label: name,
            kind: SuggestionKind::Function,
            detail: "Function with params: ["@ + quoted_names(params, 0) + "]"@,
        },
        _ => SpecSuggestion { label: name, kind: SuggestionKind::Variable, detail: "Variable"@ },
    }
}

/// The suggestions for the names that the first `count` statements of a program declare,
/// in order.
pub open spec fn spec_declared_items(stmts: Seq<SpecStmt>, count: nat) -> Seq<SpecSuggestion>
    decreases count,
{
    if count == 0 {
        Seq::empty()
    } else {
        match stmts[count - 1] {
            SpecStmt::Let { name, val } => spec_declared_items(stmts, (count - 1) as nat).push(
                spec_declared(name, val),
            ),
            _ => spec_declared_items(stmts, (count - 1) as nat),
        }
    }
}

/// The tokens of `s` from index `pos` up to the first that ends the input or is invalid.
pub open spec fn tokens_before_invalid(s: Seq<char>, pos: int) -> Seq<SpecToken>
    decreases s.len() - pos,
{
    let step = next_token_at(s, pos);
    if step.0.token_type is EOF || step.0.token_type is Invalid || step.1 <= pos || step.1 > s.len() {
        Seq::empty()
    } else {
        seq![step.0] + tokens_before_invalid(s, step.1)
    }
}

/// What an editor suggests for a text: what holds whatever the text, and, where the text
/// up to its first invalid token is a program, the names that it declares.
pub open spec fn spec_completion(text: Seq<char>) -> Seq<SpecSuggestion> {
    match parse_program(tokens_before_invalid(text, 0), 0, Seq::empty()) {
        Ok(stmts) => spec_builtin_items() + spec_declared_items(stmts, stmts.len()),
        Err(_) => spec_builtin_items(),
    }
}

fn suggestion(label: String, kind: SuggestionKind, detail: &str) -> (s: Suggestion)
    ensures
        s@ == (SpecSuggestion { label: label@, kind, detail: detail@ }),
{
    Suggestion { label, kind, detail: String::from_str(detail) }
}

/// The suggestions that hold whatever the text.
pub fn builtin_items() -> (items: Vec<Suggestion>)
    ensures
        suggestions_view(items@) == spec_builtin_items(),
{
    let mut items: Vec<Suggestion> = Vec::new();
    let table = builtin_functions();
    let mut i: usize = 0;
    while i < table.len()
        invariant
            i <= table.len(),
            table_view(table@) == spec_builtin_functions(),
            items.len() == i,
            forall|j: int|
                0 <= j < i ==> (#[trigger] items@[j])@ == (SpecSuggestion {
                    label: spec_builtin_functions()[j].0,
                    kind: SuggestionKind::Function,
                    detail: "Builtin function"@,
                }),
        decreases table.len() - i,
    {
        assert(table_view(table@)[i as int] == table@[i as int]@);
        items.push(suggestion(table[i].name.clone(), SuggestionKind::Function, "Builtin function"));
        i += 1;
    }
    assert(table_view(table@).len() == table.len());
    items.push(suggestion(String::from_str("true"), SuggestionKind::Value, "true"));
    items.push(suggestion(String::from_str("false"), SuggestionKind::Value, "false"));
    let words = keywords();
    let ghost base = items@.len();
    let mut k: usize = 0;
    while k < words.len()
        invariant
            k <= words.len(),
            keywords_view(words@) == spec_keywords(),
            base == spec_builtin_functions().len() + 2,
            items.len() == base + k,
            forall|j: int|
                0 <= j < spec_builtin_functions().len() ==> (#[trigger] items@[j])@ == (SpecSuggestion {
                    label: spec_builtin_functions()[j].0,
                    kind: SuggestionKind::Function,
                    detail: "Builtin function"@,
                }),
            items@[base - 2]@ == (SpecSuggestion { label: "true"@, kind: SuggestionKind::Value, detail: "true"@ }),
            items@[base - 1]@ == (SpecSuggestion {
                label: "false"@,
                kind: SuggestionKind::Value,
                detail: "false"@,
            }),
            forall|j: int|
                0 <= j < k ==> (#[trigger] items@[base + j])@ == (SpecSuggestion {
                    label: spec_keywords()[j].0,
                    kind: SuggestionKind::Keyword,
                    detail: "Keyword"@,
                }),
        decreases words.len() - k,
    {
        assert(keywords_view(words@)[k as int] == words@[k as int]@);
        items.push(suggestion(words[k].name.clone(), SuggestionKind::Keyword, "Keyword"));
        k += 1;
    }
    assert(keywords_view(words@).len() == words.len());
    assert(suggestions_view(items@).len() == spec_builtin_items().len());
    assert forall|j: int| 0 <= j < items.len() implies suggestions_view(items@)[j] == spec_builtin_items()[j] by {
        assert(suggestions_view(items@)[j] == items@[j]@);
        if j >= base {
            assert(items@[base + (j - base)]@ == (SpecSuggestion {
                label: spec_keywords()[j - base].0,
                kind: SuggestionKind::Keyword,
                detail: "Keyword"@,
            }));
        }
    }
    assert(suggestions_view(items@) =~= spec_builtin_items());
    items
}

/// The names from index `from` on, each between quotes, with `, ` between them.
pub fn quote_names(names: &Vec<String>, from: usize) -> (s: String)
    ensures
        s@ == quoted_names(names_view(names@), from as int),
    decreases names.len() - from,
{
    if from >= names.len() {
        String::new()
    } else {
        let mut s = String::from_str("\"");
        s.append(names[from].as_str());
        if from + 1 == names.len() {
            s.append("\"");
        } else {
            s.append("\", ");
            s.append(quote_names(names, from + 1).as_str());
        }
        s
    }
}

/// The suggestions for the names that a program declares at its top level, in order.
pub fn declared_items(ast: &AST) -> (items: Vec<Suggestion>)
    ensures
        suggestions_view(items@) == spec_declared_items(ast@, ast@.len()),
{
    let mut items: Vec<Suggestion> = Vec::new();
    assert(suggestions_view(items@) =~= Seq::empty());
    let mut i: usize = 0;
    while i < ast.stmts.len()
        invariant
            i <= ast.stmts.len(),
            suggestions_view(items@) == spec_declared_items(ast@, i as nat),
        decreases ast.stmts.len() - i,
    {
        let ghost before = suggestions_view(items@);
        assert(ast@[i as int] == ast.stmts@[i as int]@);
        if let Stmt::Let { name, val } = &ast.stmts[i] {
            let item = match val {
                Expr::Func { params, body } => {
                    let mut detail = String::from_str("Function with params: [");
                    detail.append(quote_names(params, 0).as_str());
                    detail.append("]");
                    Suggestion { label: name.clone(), kind: SuggestionKind::Function, detail }
                },
                _ => suggestion(name.clone(), SuggestionKind::Variable, "Variable"),
            };
            items.push(item);
            assert(suggestions_view(items@) =~= before.push(item@));
        }
        i += 1;
    }
    items
}

/// What an editor suggests for a text. A text that is no program gets the suggestions that
/// hold whatever the text.
pub fn completion(text: &str) -> (items: Vec<Suggestion>)
    ensures
        suggestions_view(items@) == spec_completion(text@),
{
    let mut lexer = Lexer::new(text);
    let mut tokens: Vec<Token> = Vec::new();
    let ghost s = text@;
    assert(tokens_view(tokens@) =~= Seq::empty());
    loop
        invariant_except_break
            tokens_view(tokens@) + tokens_before_invalid(s, lexer.offset()) == tokens_before_invalid(s, 0),
        invariant
            lexer.wf(),
            lexer.source() == s,
            s == text@,
            0 <= lexer.offset() <= s.len(),
        ensures
            tokens_view(tokens@) == tokens_before_invalid(s, 0),
        decreases s.len() - lexer.offset(),
    {
        let ghost before = lexer.offset();
        let ghost so_far = tokens_view(tokens@);
        proof {
            lemma_next_token_advances(s, before);
        }
        let token = lexer.next_token();
        if token.is_eof() || token.is_invalid() {
            assert(tokens_before_invalid(s, before) =~= Seq::empty());
            assert(so_far + Seq::<SpecToken>::empty() =~= so_far);
            break ;
        }
        tokens.push(token);
        proof {
            assert(tokens_view(tokens@) =~= so_far.push(token@));
            assert(tokens_before_invalid(s, before) =~= seq![token@] + tokens_before_invalid(
                s,
                lexer.offset(),
            ));
            assert(so_far.push(token@) + tokens_before_invalid(s, lexer.offset()) =~= so_far + (seq![
                token@,
            ] + tokens_before_invalid(s, lexer.offset())));
        }
    }
    let mut items = builtin_items();
    let mut parser = Parser::new(tokens);
    match parser.parse() {
        Ok(ast) => {
            let mut declared = declared_items(&ast);
            assert(suggestions_view(items@ + declared@) =~= suggestions_view(items@) + suggestions_view(
                declared@,
            ));
            items.append(&mut declared);
            items
        },
        Err(_) => items,
    }
}

} // verus!
