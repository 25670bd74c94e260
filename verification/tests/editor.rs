use dolang::debugger::ast::{indent, print_ast};
use dolang::lexer::tokenize;
use dolang::lsp::keyword::keywords;
use dolang::lsp::lsp::{builtin_items, completion, SuggestionKind};
use dolang::parser::Parser;

#[test]
fn suggestions_for_a_program() {
    let base = builtin_items();
    assert_eq!(base.len(), 18 + 2 + 11);
    assert_eq!(base[0].label, "print");
    assert_eq!(base[0].kind, SuggestionKind::Function);
    assert_eq!(base[18].label, "true");
    assert_eq!(base[19].kind, SuggestionKind::Value);
    assert_eq!(base[20].label, "let");
    assert_eq!(base[30].label, "not");
    assert_eq!(base[30].kind, SuggestionKind::Keyword);
    assert_eq!(keywords().len(), 11);

    let items = completion("let x = 1\nlet add = fn a, b -> a + b\nadd(x, 2)");
    assert_eq!(items.len(), base.len() + 2);
    assert_eq!(items[..base.len()], base[..]);
    let x = &items[base.len()];
    assert_eq!((x.label.as_str(), x.kind, x.detail.as_str()), ("x", SuggestionKind::Variable, "Variable"));
    let add = &items[base.len() + 1];
    assert_eq!(
        (add.label.as_str(), add.kind, add.detail.as_str()),
        ("add", SuggestionKind::Function, "Function with params: [\"a\", \"b\"]")
    );
}

#[test]
fn suggestions_for_what_is_no_program() {
    let base = builtin_items();
    assert_eq!(completion("let = 1"), base);
    assert_eq!(completion(""), base);
    // lexing stops at the first invalid token
    assert_eq!(completion("let x = 1 @ let y").len(), base.len() + 1);
}

#[test]
fn a_program_as_a_tree() {
    let ast = Parser::new(tokenize("let f = fn x -> if x > 1 then [x, \"a\"] else s[1..]\nf(2).y")).parse().unwrap();
    let expected = vec![
        "LetStmt: f",
        "  Func: params = [\"x\"]",
        "    If:",
        "      Cond:",
        "        Comp (GreaterThan):",
        "          Identifier: x",
        "          Number: 1",
        "      Then:",
        "        List:",
        "          Identifier: x",
        "          String: \"a\"",
        "      Else:",
        "        Slice:",
        "          Identifier: s",
        "          Start:",
        "            Number: 1",
        "ExprStmt:",
        "  Access:",
        "    Call:",
        "      Identifier: f",
        "        Number: 2",
        "    Field: y",
    ];
    assert_eq!(print_ast(&ast), expected);
    assert_eq!(indent(0), "");
    assert_eq!(indent(3), "      ");
}

#[test]
fn a_match_as_a_tree() {
    let ast = Parser::new(tokenize("match x | 1 -> { a: true } | \"s\" -> -1 | _ -> not b")).parse().unwrap();
    let expected = vec![
        "ExprStmt:",
        "  Match:",
        "    Identifier: x",
        "    Case pattern: Number(1)",
        "      Record:",
        "        a:",
        "        Boolean: true",
        "    Case pattern: String(\"s\")",
        "      Number: -1",
        "    Case pattern: Wildcard",
        "      Unary (Not):",
        "        Identifier: b",
    ];
    assert_eq!(print_ast(&ast), expected);
}
