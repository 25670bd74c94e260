use crate::ast::{
    cases_view, exprs_view, fields_view, opt_view, Case, CompOp, Expr, FactorOp,
    LogicOp, Pattern, SpecCase, SpecExpr, SpecPattern, SpecStmt, Stmt, TermOp, UnaryOp, AST,
};
use crate::lsp::lsp::quoted_names;
use vstd::prelude::*;

verus! {

/// The texts of a sequence of lines, in order.
pub open spec fn lines_view(lines: Seq<String>) -> Seq<Seq<char>> {
    Seq::new(lines.len(), |i: int| lines[i]@)
}

/// Two spaces for each level.
pub open spec fn spec_indent(level: nat) -> Seq<char>
    decreases level,
{
    if level == 0 {
        Seq::empty()
    } else {
        "  "@ + spec_indent((level - 1) as nat)
    }
}

/// One level deeper; the deepest level stays.
pub open spec fn deeper(level: usize) -> usize {
    if level < usize::MAX {
        (level + 1) as usize
    } else {
        level
    }
}

/// The name of a comparison operator.
pub open spec fn comp_name(op: CompOp) -> Seq<char> {
    match op {
        CompOp::Equal => "Equal"@,
        CompOp::NotEqual => "NotEqual"@,
        CompOp::LessThan => "LessThan"@,
        CompOp::LessThanOrEqual => "LessThanOrEqual"@,
        CompOp::GreaterThan => "GreaterThan"@,
        CompOp::GreaterThanOrEqual => "GreaterThanOrEqual"@,
    }
}

/// The name of a logical connective.
pub open spec fn logic_name(op: LogicOp) -> Seq<char> {
    match op {
        LogicOp::And => "And"@,
        LogicOp::Or => "Or"@,
    }
}

/// The name of an additive operator.
pub open spec fn term_name(op: TermOp) -> Seq<char> {
    match op {
        TermOp::Plus => "Plus"@,
        TermOp::Minus => "Minus"@,
    }
}

/// The name of a multiplicative operator.
pub open spec fn factor_name(op: FactorOp) -> Seq<char> {
    match op {
        FactorOp::Multiply => "Multiply"@,
        FactorOp::Divide => "Divide"@,
        FactorOp::Modulus => "Modulus"@,
    }
}

/// The name of a prefix operator.
pub open spec fn unary_name(op: UnaryOp) -> Seq<char> {
    match op {
        UnaryOp::Minus => "Minus"@,
        UnaryOp::Not => "Not"@,
    }
}

/// How a pattern is shown.
pub open spec fn pattern_text(p: SpecPattern) -> Seq<char> {
    match p {
        SpecPattern::Number(n) => "Number("@ + n + ")"@,
        SpecPattern::String(s) => "String(\""@ + s + "\")"@,
        SpecPattern::Boolean(b) => if b {
            "Boolean(true)"@
        } else {
            "Boolean(false)"@
        },
        SpecPattern::Wildcard => "Wildcard"@,
    }
}

/// A line at a level: the indentation and the text.
pub open spec fn line(level: usize, text: Seq<char>) -> Seq<char> {
    spec_indent(level as nat) + text
}

/// The lines that show an expression at a level: a line that names its kind, and below it,
/// deeper, its parts.
pub open spec fn spec_print_expr(e: SpecExpr, level: usize) -> Seq<Seq<char>>
    decreases e, 0nat,
{
    match e {
        SpecExpr::Func { params, body } => seq![
            line(level, "Func: params = ["@ + quoted_names(params, 0) + "]"@),
        ] + spec_print_expr(*body, deeper(level)),
        SpecExpr::If { cond, then, else_ } => seq![line(level, "If:"@), line(level, "  Cond:"@)]
            + spec_print_expr(*cond, deeper(deeper(level))) + seq![line(level, "  Then:"@)] + spec_print_expr(
            *then,
            deeper(deeper(level)),
        ) + seq![line(level, "  Else:"@)] + spec_print_expr(*else_, deeper(deeper(level))),
        SpecExpr::Match { cond, cases } => seq![line(level, "Match:"@)] + spec_print_expr(
            *cond,
            deeper(level),
        ) + spec_print_cases(cases, 0, level),
        SpecExpr::List(items) => seq![line(level, "List:"@)] + spec_print_exprs(items, 0, deeper(level)),
        SpecExpr::Record(fields) => seq![line(level, "Record:"@)] + spec_print_fields(fields, 0, level),
        SpecExpr::Pipe { left, right } => seq![line(level, "Pipe:"@)] + spec_print_expr(
            *left,
            deeper(level),
        ) + spec_print_expr(*right, deeper(level)),
        SpecExpr::Logic { left, op, right } => seq![line(level, "Logic ("@ + logic_name(op) + "):"@)]
            + spec_print_expr(*left, deeper(level)) + spec_print_expr(*right, deeper(level)),
        SpecExpr::Comp { left, op, right } => seq![line(level, "Comp ("@ + comp_name(op) + "):"@)]
            + spec_print_expr(*left, deeper(level)) + spec_print_expr(*right, deeper(level)),
        SpecExpr::Range { start, end } => seq![line(level, "Range:"@)] + spec_print_expr(
            *start,
            deeper(level),
        ) + spec_print_expr(*end, deeper(level)),
        SpecExpr::Term { left, op, right } => seq![line(level, "Term ("@ + term_name(op) + "):"@)]
            + spec_print_expr(*left, deeper(level)) + spec_print_expr(*right, deeper(level)),
        SpecExpr::Factor { left, op, right } => seq![line(level, "Factor ("@ + factor_name(op) + "):"@)]
            + spec_print_expr(*left, deeper(level)) + spec_print_expr(*right, deeper(level)),
        SpecExpr::Unary { op, right } => seq![line(level, "Unary ("@ + unary_name(op) + "):"@)]
            + spec_print_expr(*right, deeper(level)),
        SpecExpr::Index { list, index } => seq![line(level, "Index:"@)] + spec_print_expr(
            *list,
            deeper(level),
        ) + spec_print_expr(*index, deeper(level)),
        SpecExpr::Slice { list, start, end } => seq![line(level, "Slice:"@)] + spec_print_expr(
            *list,
            deeper(level),
        ) + (match start {
            Some(s) => seq![line(level, "  Start:"@)] + spec_print_expr(*s, deeper(deeper(level))),
            None => Seq::empty(),
        }) + (match end {
            Some(e) => seq![line(level, "  End:"@)] + spec_print_expr(*e, deeper(deeper(level))),
            None => Seq::empty(),
        }),
        SpecExpr::Access { record, field } => seq![line(level, "Access:"@)] + spec_print_expr(
            *record,
            deeper(level),
        ) + seq![line(level, "  Field: "@ + field)],
        SpecExpr::Call { name, args } => seq![line(level, "Call:"@)] + spec_print_expr(
            *name,
            deeper(level),
        ) + spec_print_exprs(args, 0, deeper(deeper(level))),
        SpecExpr::Identifier(name) => seq![line(level, "Identifier: "@ + name)],
        SpecExpr::Number(n) => seq![line(level, "Number: "@ + n)],
        SpecExpr::String(s) => seq![line(level, "String: \""@ + s + "\""@)],
        SpecExpr::Boolean(b) => seq![
            line(
                level,
                if b {
                    "Boolean: true"@
                } else {
                    "Boolean: false"@
                },
            ),
        ],
    }
}

/// The lines that show the expressions from index `from` on, all at one level.
pub open spec fn spec_print_exprs(exprs: Seq<SpecExpr>, from: int, level: usize) -> Seq<Seq<char>>
    decreases exprs, exprs.len() - from,
{
    if from < 0 || from >= exprs.len() {
        Seq::empty()
    } else {
        spec_print_expr(exprs[from], level) + spec_print_exprs(exprs, from + 1, level)
    }
}

/// The lines that show the cases of a `match` from index `from` on: for each its pattern,
/// and deeper its expression.
pub open spec fn spec_print_cases(cases: Seq<SpecCase>, from: int, level: usize) -> Seq<Seq<char>>
    decreases cases, cases.len() - from,
{
    if from < 0 || from >= cases.len() {
        Seq::empty()
    } else {
        seq![line(level, "  Case pattern: "@ + pattern_text(cases[from].pattern))] + spec_print_expr(
            cases[from].body,
            deeper(deeper(level)),
        ) + spec_print_cases(cases, from + 1, level)
    }
}

/// The lines that show the fields of a record from index `from` on: for each its name, and
/// its expression.
pub open spec fn spec_print_fields(fields: Seq<(Seq<char>, SpecExpr)>, from: int, level: usize) -> Seq<
    Seq<char>,
>
    decreases fields, fields.len() - from,
{
    if from < 0 || from >= fields.len() {
        Seq::empty()
    } else {
        seq![line(level, "  "@ + fields[from].0 + ":"@)] + spec_print_expr(fields[from].1, deeper(level))
            + spec_print_fields(fields, from + 1, level)
    }
}

/// The lines that show a statement at a level.
pub open spec fn spec_print_stmt(s: SpecStmt, level: usize) -> Seq<Seq<char>> {
    match s {
        SpecStmt::Expr(e) => seq![line(level, "ExprStmt:"@)] + spec_print_expr(e, deeper(level)),
        SpecStmt::Let { name, val } => seq![line(level, "LetStmt: "@ + name)] + spec_print_expr(
            val,
            deeper(level),
        ),
        SpecStmt::Import { module } => seq![line(level, "ImportStmt: "@ + module)],
    }
}

/// The lines that show the statements of a program from index `from` on.
pub open spec fn spec_print_ast(stmts: Seq<SpecStmt>, from: int) -> Seq<Seq<char>>
    decreases stmts.len() - from,
{
    if from < 0 || from >= stmts.len() {
        Seq::empty()
    } else {
        spec_print_stmt(stmts[from], 0) + spec_print_ast(stmts, from + 1)
    }
}

/// Two spaces for each level.
pub fn indent(level: usize) -> (s: String)
    ensures
        s@ == spec_indent(level as nat),
{
    let mut s = String::new();
    let mut i: usize = 0;
    while i < level
        invariant
            i <= level,
            s@ == spec_indent(i as nat),
        decreases level - i,
    {
        let mut longer = String::from_str("  ");
        longer.append(s.as_str());
        s = longer;
        i += 1;
    }
    s
}

fn down(level: usize) -> (r: usize)
    ensures
        r == deeper(level),
{
    if level < usize::MAX {
        level + 1
    } else {
        level
    }
}

/// Adds to `out` the line with `text` at `level`.
fn put(out: &mut Vec<String>, level: usize, text: String)
    ensures
        lines_view(final(out)@) == lines_view(old(out)@) + seq![line(level, text@)],
{
    let mut s = indent(level);
    s.append(text.as_str());
    out.push(s);
    assert(lines_view(out@) =~= lines_view(old(out)@) + seq![line(level, text@)]);
}

/// `head`, then `tail`.
fn join(head: &str, tail: &str) -> (s: String)
    ensures
        s@ == head@ + tail@,
{
    let mut s = String::from_str(head);
    s.append(tail);
    s
}

/// `head`, then `middle`, then `tail`.
fn join3(head: &str, middle: &str, tail: &str) -> (s: String)
    ensures
        s@ == head@ + middle@ + tail@,
{
    let mut s = String::from_str(head);
    s.append(middle);
    s.append(tail);
    s
}

fn comp_text(op: CompOp) -> (s: String)
    ensures
        s@ == comp_name(op),
{
    match op {
        CompOp::Equal => String::from_str("Equal"),
        CompOp::NotEqual => String::from_str("NotEqual"),
        CompOp::LessThan => String::from_str("LessThan"),
        CompOp::LessThanOrEqual => String::from_str("LessThanOrEqual"),
        CompOp::GreaterThan => String::from_str("GreaterThan"),
        CompOp::GreaterThanOrEqual => String::from_str("GreaterThanOrEqual"),
    }
}

fn logic_text(op: LogicOp) -> (s: String)
    ensures
        s@ == logic_name(op),
{
    match op {
        LogicOp::And => String::from_str("And"),
        LogicOp::Or => String::from_str("Or"),
    }
}

fn term_text(op: TermOp) -> (s: String)
    ensures
        s@ == term_name(op),
{
    match op {
        TermOp::Plus => String::from_str("Plus"),
        TermOp::Minus => String::from_str("Minus"),
    }
}

fn factor_text(op: FactorOp) -> (s: String)
    ensures
        s@ == factor_name(op),
{
    match op {
        FactorOp::Multiply => String::from_str("Multiply"),
        FactorOp::Divide => String::from_str("Divide"),
        FactorOp::Modulus => String::from_str("Modulus"),
    }
}

fn unary_text(op: UnaryOp) -> (s: String)
    ensures
        s@ == unary_name(op),
{
    match op {
        UnaryOp::Minus => String::from_str("Minus"),
        UnaryOp::Not => String::from_str("Not"),
    }
}

fn show_pattern(p: &Pattern) -> (s: String)
    ensures
        s@ == pattern_text(p@),
{
    match p {
        Pattern::Number(n) => join3("Number(", n.as_str(), ")"),
        Pattern::String(t) => join3("String(\"", t.as_str(), "\")"),
        Pattern::Boolean(b) => if *b {
            String::from_str("Boolean(true)")
        } else {
            String::from_str("Boolean(false)")
        },
        Pattern::Wildcard => String::from_str("Wildcard"),
    }
}

/// Adds to `out` the line that shows an expression without parts.
fn print_leaf(expr: &Expr, level: usize, out: &mut Vec<String>)
    requires
        expr is Identifier || expr is Number || expr is String || expr is Boolean,
    ensures
        lines_view(final(out)@) == lines_view(old(out)@) + spec_print_expr(expr@, level),
{
    match expr {
        Expr::Identifier(name) => {
            put(out, level, join("Identifier: ", name.as_str()));
        },
        Expr::Number(n) => {
            put(out, level, join("Number: ", n.as_str()));
        },
        Expr::String(s) => {
            put(out, level, join3("String: \"", s.as_str(), "\""));
        },
        Expr::Boolean(b) => {
            if *b {
                put(out, level, String::from_str("Boolean: true"));
            } else {
                put(out, level, String::from_str("Boolean: false"));
            }
        },
        _ => {},
    }
}

/// Adds to `out` the lines that show an operation named by a word.
fn print_words(expr: &Expr, level: usize, out: &mut Vec<String>)
    requires
        expr is Pipe || expr is Range || expr is Index,
    ensures
        lines_view(final(out)@) == lines_view(old(out)@) + spec_print_expr(expr@, level),
    decreases expr, 0nat,
{
    let ghost before = lines_view(out@);
    match expr {
        Expr::Pipe { left, right } => {
            put(out, level, String::from_str("Pipe:"));
            print_expr(left, down(level), out);
            print_expr(right, down(level), out);
        },
        Expr::Range { start, end } => {
            put(out, level, String::from_str("Range:"));
            print_expr(start, down(level), out);
            print_expr(end, down(level), out);
        },
        Expr::Index { list, index } => {
            put(out, level, String::from_str("Index:"));
            print_expr(list, down(level), out);
            print_expr(index, down(level), out);
        },
        _ => {},
    }
    assert(lines_view(out@) =~= before + spec_print_expr(expr@, level));
}

/// Adds to `out` the lines that show an operation named by its operator.
fn print_operators(expr: &Expr, level: usize, out: &mut Vec<String>)
    requires
        expr is Logic || expr is Comp || expr is Term || expr is Factor || expr is Unary,
    ensures
        lines_view(final(out)@) == lines_view(old(out)@) + spec_print_expr(expr@, level),
    decreases expr, 0nat,
{
    let ghost before = lines_view(out@);
    match expr {
        Expr::Logic { left, op, right } => {
            put(out, level, join3("Logic (", logic_text(*op).as_str(), "):"));
            print_expr(left, down(level), out);
            print_expr(right, down(level), out);
        },
        Expr::Comp { left, op, right } => {
            put(out, level, join3("Comp (", comp_text(*op).as_str(), "):"));
            print_expr(left, down(level), out);
            print_expr(right, down(level), out);
        },
        Expr::Term { left, op, right } => {
            put(out, level, join3("Term (", term_text(*op).as_str(), "):"));
            print_expr(left, down(level), out);
            print_expr(right, down(level), out);
        },
        Expr::Factor { left, op, right } => {
            put(out, level, join3("Factor (", factor_text(*op).as_str(), "):"));
            print_expr(left, down(level), out);
            print_expr(right, down(level), out);
        },
        Expr::Unary { op, right } => {
            put(out, level, join3("Unary (", unary_text(*op).as_str(), "):"));
            print_expr(right, down(level), out);
        },
        _ => {},
    }
    assert(lines_view(out@) =~= before + spec_print_expr(expr@, level));
}

/// Adds to `out` the lines that show an `if` or a `match`.
fn print_branches(expr: &Expr, level: usize, out: &mut Vec<String>)
    requires
        expr is If || expr is Match,
    ensures
        lines_view(final(out)@) == lines_view(old(out)@) + spec_print_expr(expr@, level),
    decreases expr, 0nat,
{
    let ghost before = lines_view(out@);
    match expr {
        Expr::If { cond, then, else_ } => {
            put(out, level, String::from_str("If:"));
            put(out, level, String::from_str("  Cond:"));
            print_expr(cond, down(down(level)), out);
            put(out, level, String::from_str("  Then:"));
            print_expr(then, down(down(level)), out);
            put(out, level, String::from_str("  Else:"));
            print_expr(else_, down(down(level)), out);
        },
        Expr::Match { cond, cases } => {
            put(out, level, String::from_str("Match:"));
            print_expr(cond, down(level), out);
            print_cases(cases, 0, level, out);
        },
        _ => {},
    }
    assert(lines_view(out@) =~= before + spec_print_expr(expr@, level));
}

/// Adds to `out` the lines that show a list, a record, a function or a call.
fn print_collections(expr: &Expr, level: usize, out: &mut Vec<String>)
    requires
        expr is List || expr is Record || expr is Func || expr is Call,
    ensures
        lines_view(final(out)@) == lines_view(old(out)@) + spec_print_expr(expr@, level),
    decreases expr, 0nat,
{
    let ghost before = lines_view(out@);
    match expr {
        Expr::Func { params, body } => {
            let names = crate::lsp::lsp::quote_names(params, 0);
            put(out, level, join3("Func: params = [", names.as_str(), "]"));
            print_expr(body, down(level), out);
        },
        Expr::List(items) => {
            put(out, level, String::from_str("List:"));
            print_exprs(items, 0, down(level), out);
        },
        Expr::Record(fields) => {
            put(out, level, String::from_str("Record:"));
            print_fields(fields, 0, level, out);
        },
        Expr::Call { name, args } => {
            put(out, level, String::from_str("Call:"));
            print_expr(name, down(level), out);
            print_exprs(args, 0, down(down(level)), out);
        },
        _ => {},
    }
    assert(lines_view(out@) =~= before + spec_print_expr(expr@, level));
}

/// Adds to `out` the lines that show a slice or a field access.
fn print_parts(expr: &Expr, level: usize, out: &mut Vec<String>)
    requires
        expr is Slice || expr is Access,
    ensures
        lines_view(final(out)@) == lines_view(old(out)@) + spec_print_expr(expr@, level),
    decreases expr, 0nat,
{
    let ghost before = lines_view(out@);
    match expr {
        Expr::Slice { list, start, end } => {
            put(out, level, String::from_str("Slice:"));
            print_expr(list, down(level), out);
            let ghost after_list = lines_view(out@);
            let ghost start_part = match opt_view(*start) {
                Some(s) => seq![line(level, "  Start:"@)] + spec_print_expr(*s, deeper(deeper(level))),
                None => Seq::empty(),
            };
            let ghost end_part = match opt_view(*end) {
                Some(e) => seq![line(level, "  End:"@)] + spec_print_expr(*e, deeper(deeper(level))),
                None => Seq::empty(),
            };
            if let Some(s) = start {
                put(out, level, String::from_str("  Start:"));
                print_expr(s, down(down(level)), out);
            }
            assert(lines_view(out@) =~= after_list + start_part);
            let ghost after_start = lines_view(out@);
            if let Some(e) = end {
                put(out, level, String::from_str("  End:"));
                print_expr(e, down(down(level)), out);
            }
            assert(lines_view(out@) =~= after_start + end_part);
            assert(spec_print_expr(expr@, level) =~= seq![line(level, "Slice:"@)] + spec_print_expr(
                (**list)@,
                deeper(level),
            ) + start_part + end_part);
        },
        Expr::Access { record, field } => {
            put(out, level, String::from_str("Access:"));
            print_expr(record, down(level), out);
            put(out, level, join("  Field: ", field.as_str()));
        },
        _ => {},
    }
    assert(lines_view(out@) =~= before + spec_print_expr(expr@, level));
}

/// Adds to `out` the lines that show an expression at a level.
pub fn print_expr(expr: &Expr, level: usize, out: &mut Vec<String>)
    ensures
        lines_view(final(out)@) == lines_view(old(out)@) + spec_print_expr(expr@, level),
    decreases expr, 1nat,
{
    match expr {
        Expr::Pipe { .. } | Expr::Range { .. } | Expr::Index { .. } => print_words(expr, level, out),
        Expr::Logic { .. } | Expr::Comp { .. } | Expr::Term { .. } | Expr::Factor { .. } | Expr::Unary {
            ..
        } => print_operators(expr, level, out),
        Expr::If { .. } | Expr::Match { .. } => print_branches(expr, level, out),
        Expr::List(_) | Expr::Record(_) | Expr::Func { .. } | Expr::Call { .. } => print_collections(
            expr,
            level,
            out,
        ),
        Expr::Slice { .. } | Expr::Access { .. } => print_parts(expr, level, out),
        _ => print_leaf(expr, level, out),
    }
}

/// Adds to `out` the lines that show the expressions from index `from` on.
fn print_exprs(exprs: &Vec<Expr>, from: usize, level: usize, out: &mut Vec<String>)
    ensures
        lines_view(final(out)@) == lines_view(old(out)@) + spec_print_exprs(
            exprs_view(exprs@),
            from as int,
            level,
        ),
    decreases exprs, exprs.len() - from,
{
    let ghost before = lines_view(out@);
    if from < exprs.len() {
        assert(exprs_view(exprs@)[from as int] == exprs@[from as int]@);
        print_expr(&exprs[from], level, out);
        print_exprs(exprs, from + 1, level, out);
    }
    assert(lines_view(out@) =~= before + spec_print_exprs(exprs_view(exprs@), from as int, level));
}

/// Adds to `out` the lines that show the cases of a `match` from index `from` on.
fn print_cases(cases: &Vec<Case>, from: usize, level: usize, out: &mut Vec<String>)
    ensures
        lines_view(final(out)@) == lines_view(old(out)@) + spec_print_cases(
            cases_view(cases@),
            from as int,
            level,
        ),
    decreases cases, cases.len() - from,
{
    let ghost before = lines_view(out@);
    if from < cases.len() {
        assert(cases_view(cases@)[from as int] == cases@[from as int]@);
        put(out, level, join("  Case pattern: ", show_pattern(&cases[from].pattern).as_str()));
        print_expr(&cases[from].body, down(down(level)), out);
        print_cases(cases, from + 1, level, out);
    }
    assert(lines_view(out@) =~= before + spec_print_cases(cases_view(cases@), from as int, level));
}

/// Adds to `out` the lines that show the fields of a record from index `from` on.
fn print_fields(fields: &Vec<(String, Expr)>, from: usize, level: usize, out: &mut Vec<String>)
    ensures
        lines_view(final(out)@) == lines_view(old(out)@) + spec_print_fields(
            fields_view(fields@),
            from as int,
            level,
        ),
    decreases fields, fields.len() - from,
{
    let ghost before = lines_view(out@);
    if from < fields.len() {
        assert(fields_view(fields@)[from as int] == (fields@[from as int].0@, fields@[from as int].1@));
        put(out, level, join3("  ", fields[from].0.as_str(), ":"));
        print_expr(&fields[from].1, down(level), out);
        print_fields(fields, from + 1, level, out);
    }
    assert(lines_view(out@) =~= before + spec_print_fields(fields_view(fields@), from as int, level));
}

/// Adds to `out` the lines that show a statement at a level.
pub fn print_stmt(stmt: &Stmt, level: usize, out: &mut Vec<String>)
    ensures
        lines_view(final(out)@) == lines_view(old(out)@) + spec_print_stmt(stmt@, level),
{
    let ghost before = lines_view(out@);
    match stmt {
        Stmt::Expr(expr) => {
            put(out, level, String::from_str("ExprStmt:"));
            print_expr(expr, down(level), out);
        },
        Stmt::Let { name, val } => {
            put(out, level, join("LetStmt: ", name.as_str()));
            print_expr(val, down(level), out);
        },
        Stmt::Import { module } => {
            put(out, level, join("ImportStmt: ", module.as_str()));
        },
    }
    assert(lines_view(out@) =~= before + spec_print_stmt(stmt@, level));
}

/// The lines that show a program to a reader: its statements one after the other, each as
/// an indented tree.
pub fn print_ast(ast: &AST) -> (lines: Vec<String>)
    ensures
        lines_view(lines@) == spec_print_ast(ast@, 0),
{
    let mut lines: Vec<String> = Vec::new();
    assert(lines_view(lines@) =~= Seq::empty());
    let mut i: usize = 0;
    while i < ast.stmts.len()
        invariant
            i <= ast.stmts.len(),
            lines_view(lines@) + spec_print_ast(ast@, i as int) == spec_print_ast(ast@, 0),
        decreases ast.stmts.len() - i,
    {
        let ghost before = lines_view(lines@);
        assert(ast@[i as int] == ast.stmts@[i as int]@);
        print_stmt(&ast.stmts[i], 0, &mut lines);
        assert(before + spec_print_stmt(ast@[i as int], 0) + spec_print_ast(ast@, i + 1) =~= before + (
        spec_print_stmt(ast@[i as int], 0) + spec_print_ast(ast@, i + 1)));
        i += 1;
    }
    assert(lines_view(lines@) + Seq::<Seq<char>>::empty() =~= lines_view(lines@));
    lines
}

} // verus!
