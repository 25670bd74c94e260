use crate::ast::{cases_view, exprs_view, fields_view, names_view, opt_view, Case, Expr, Pattern};
use vstd::prelude::*;

verus! {

/// Whether two lists of names hold the same names in the same order.
pub fn same_names(a: &Vec<String>, b: &Vec<String>) -> (r: bool)
    ensures
        r == (names_view(a@) == names_view(b@)),
{
    if a.len() != b.len() {
        assert(names_view(a@).len() != names_view(b@).len());
        return false;
    }
    let mut i: usize = 0;
    while i < a.len()
        invariant
            a.len() == b.len(),
            i <= a.len(),
            forall|j: int| 0 <= j < i ==> a@[j]@ == b@[j]@,
        decreases a.len() - i,
    {
        if !(a[i] == b[i]) {
            assert(names_view(a@)[i as int] != names_view(b@)[i as int]);
            return false;
        }
        i += 1;
    }
    assert(names_view(a@) =~= names_view(b@));
    true
}

/// Whether two patterns are the same.
pub fn same_pattern(a: &Pattern, b: &Pattern) -> (r: bool)
    ensures
        r == (a@ == b@),
{
    match (a, b) {
        (Pattern::Number(x), Pattern::Number(y)) => *x == *y,
        (Pattern::String(x), Pattern::String(y)) => *x == *y,
        (Pattern::Boolean(x), Pattern::Boolean(y)) => *x == *y,
        (Pattern::Wildcard, Pattern::Wildcard) => true,
        _ => false,
    }
}

/// Whether two lists of expressions hold the same expressions in the same order.
pub fn same_exprs(a: &Vec<Expr>, b: &Vec<Expr>) -> (r: bool)
    ensures
        r == (exprs_view(a@) == exprs_view(b@)),
    decreases a,
{
    if a.len() != b.len() {
        assert(exprs_view(a@).len() != exprs_view(b@).len());
        return false;
    }
    let mut i: usize = 0;
    while i < a.len()
        invariant
            a.len() == b.len(),
            i <= a.len(),
            forall|j: int| 0 <= j < i ==> a@[j]@ == b@[j]@,
        decreases a.len() - i,
    {
        if !same_expr(&a[i], &b[i]) {
            assert(exprs_view(a@)[i as int] != exprs_view(b@)[i as int]);
            return false;
        }
        i += 1;
    }
    assert(exprs_view(a@) =~= exprs_view(b@));
    true
}

/// Whether two lists of cases hold the same cases in the same order.
pub fn same_cases(a: &Vec<Case>, b: &Vec<Case>) -> (r: bool)
    ensures
        r == (cases_view(a@) == cases_view(b@)),
    decreases a,
{
    if a.len() != b.len() {
        assert(cases_view(a@).len() != cases_view(b@).len());
        return false;
    }
    let mut i: usize = 0;
    while i < a.len()
        invariant
            a.len() == b.len(),
            i <= a.len(),
            forall|j: int| 0 <= j < i ==> a@[j]@ == b@[j]@,
        decreases a.len() - i,
    {
        if !same_pattern(&a[i].pattern, &b[i].pattern) || !same_expr(&a[i].body, &b[i].body) {
            assert(cases_view(a@)[i as int] != cases_view(b@)[i as int]);
            return false;
        }
        i += 1;
    }
    assert(cases_view(a@) =~= cases_view(b@));
    true
}

/// Whether two lists of fields hold the same fields in the same order.
pub fn same_fields(a: &Vec<(String, Expr)>, b: &Vec<(String, Expr)>) -> (r: bool)
    ensures
        r == (fields_view(a@) == fields_view(b@)),
    decreases a,
{
    if a.len() != b.len() {
        assert(fields_view(a@).len() != fields_view(b@).len());
        return false;
    }
    let mut i: usize = 0;
    while i < a.len()
        invariant
            a.len() == b.len(),
            i <= a.len(),
            forall|j: int| 0 <= j < i ==> a@[j].0@ == b@[j].0@ && a@[j].1@ == b@[j].1@,
        decreases a.len() - i,
    {
        if !(a[i].0 == b[i].0) || !same_expr(&a[i].1, &b[i].1) {
            assert(fields_view(a@)[i as int] != fields_view(b@)[i as int]);
            return false;
        }
        i += 1;
    }
    assert(fields_view(a@) =~= fields_view(b@));
    true
}

/// Whether two optional expressions are both absent, or both present and the same.
pub fn same_opt(a: &Option<Box<Expr>>, b: &Option<Box<Expr>>) -> (r: bool)
    ensures
        r == (opt_view(*a) == opt_view(*b)),
    decreases a,
{
    match (a, b) {
        (Some(x), Some(y)) => same_expr(x, y),
        (None, None) => true,
        _ => false,
    }
}

/// Whether two expressions with two parts, and perhaps an operator, are the same.
fn same_pair(a: &Expr, b: &Expr) -> (r: bool)
    requires
        a is Pipe || a is Logic || a is Comp || a is Range || a is Term || a is Factor || a is Index,
    ensures
        r == (a@ == b@),
    decreases a, 0nat,
{
    match (a, b) {
        (Expr::Pipe { left: l1, right: r1 }, Expr::Pipe { left: l2, right: r2 }) => same_expr(l1, l2)
            && same_expr(r1, r2),
        (Expr::Logic { left: l1, op: o1, right: r1 }, Expr::Logic { left: l2, op: o2, right: r2 }) => *o1
            == *o2 && same_expr(l1, l2) && same_expr(r1, r2),
        (Expr::Comp { left: l1, op: o1, right: r1 }, Expr::Comp { left: l2, op: o2, right: r2 }) => *o1
            == *o2 && same_expr(l1, l2) && same_expr(r1, r2),
        (Expr::Range { start: l1, end: r1 }, Expr::Range { start: l2, end: r2 }) => same_expr(l1, l2)
            && same_expr(r1, r2),
        (Expr::Term { left: l1, op: o1, right: r1 }, Expr::Term { left: l2, op: o2, right: r2 }) => *o1
            == *o2 && same_expr(l1, l2) && same_expr(r1, r2),
        (Expr::Factor { left: l1, op: o1, right: r1 }, Expr::Factor { left: l2, op: o2, right: r2 }) => *o1
            == *o2 && same_expr(l1, l2) && same_expr(r1, r2),
        (Expr::Index { list: l1, index: r1 }, Expr::Index { list: l2, index: r2 }) => same_expr(l1, l2)
            && same_expr(r1, r2),
        _ => false,
    }
}

/// Whether two expressions that hold lists of parts are the same.
fn same_compound(a: &Expr, b: &Expr) -> (r: bool)
    requires
        a is Func || a is Match || a is List || a is Record || a is Call || a is If,
    ensures
        r == (a@ == b@),
    decreases a, 0nat,
{
    match (a, b) {
        (Expr::Func { params: n1, body: b1 }, Expr::Func { params: n2, body: b2 }) => same_names(n1, n2)
            && same_expr(b1, b2),
        (Expr::If { cond: c1, then: t1, else_: e1 }, Expr::If { cond: c2, then: t2, else_: e2 }) => same_expr(
            c1,
            c2,
        ) && same_expr(t1, t2) && same_expr(e1, e2),
        (Expr::Match { cond: c1, cases: k1 }, Expr::Match { cond: c2, cases: k2 }) => same_expr(c1, c2)
            && same_cases(k1, k2),
        (Expr::List(x), Expr::List(y)) => same_exprs(x, y),
        (Expr::Record(x), Expr::Record(y)) => same_fields(x, y),
        (Expr::Call { name: n1, args: a1 }, Expr::Call { name: n2, args: a2 }) => same_expr(n1, n2)
            && same_exprs(a1, a2),
        _ => false,
    }
}

/// Whether two expressions are the same.
pub fn same_expr(a: &Expr, b: &Expr) -> (r: bool)
    ensures
        r == (a@ == b@),
    decreases a, 1nat,
{
    match a {
        Expr::Pipe { .. } | Expr::Logic { .. } | Expr::Comp { .. } | Expr::Range { .. } | Expr::Term {
            ..
        } | Expr::Factor { .. } | Expr::Index { .. } => same_pair(a, b),
        Expr::Func { .. } | Expr::Match { .. } | Expr::List(_) | Expr::Record(_) | Expr::Call { .. }
        | Expr::If { .. } => same_compound(a, b),
        _ => match (a, b) {
            (Expr::Unary { op: o1, right: r1 }, Expr::Unary { op: o2, right: r2 }) => *o1 == *o2
                && same_expr(r1, r2),
            (
                Expr::Slice { list: l1, start: s1, end: e1 },
                Expr::Slice { list: l2, start: s2, end: e2 },
            ) => same_expr(l1, l2) && same_opt(s1, s2) && same_opt(e1, e2),
            (Expr::Access { record: r1, field: f1 }, Expr::Access { record: r2, field: f2 }) => *f1 == *f2
                && same_expr(r1, r2),
            (Expr::Identifier(x), Expr::Identifier(y)) => *x == *y,
            (Expr::Number(x), Expr::Number(y)) => *x == *y,
            (Expr::String(x), Expr::String(y)) => *x == *y,
            (Expr::Boolean(x), Expr::Boolean(y)) => *x == *y,
            _ => false,
        },
    }
}

} // verus!
