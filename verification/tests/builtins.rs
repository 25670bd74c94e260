use dolang::debugger::token::{format_token, print_tokens};
use dolang::eval::builtin::builtin::builtin_functions;
use dolang::eval::builtin::etc::{empty, len, not_empty};
use dolang::eval::builtin::file::read_file;
use dolang::eval::builtin::io::{format_value, print, TextPart};
use dolang::eval::builtin::list::{append, filter, first, last, second, sum, tail, third};
use dolang::eval::builtin::num::str;
use dolang::eval::builtin::str::{split, to_number};
use dolang::eval::env::Env;
use dolang::eval::error::{decimal, EvalError};
use dolang::eval::value::{BuiltinFuncArgs, Value};
use dolang::lexer::tokenize;
use dolang::number::Num;
use dolang::text::{text_order, TextOrder};
use std::rc::Rc;

fn number(x: f64) -> Value {
    Value::Number(Num::from_bits(x.to_bits()))
}

fn text(s: &str) -> Value {
    Value::String(s.to_string())
}

fn list(items: Vec<f64>) -> Value {
    Value::List(items.into_iter().map(number).collect())
}

#[test]
fn positions_in_a_list() {
    assert_eq!(first(vec![list(vec![1.0, 2.0, 3.0])]), Ok(number(1.0)));
    assert_eq!(second(vec![list(vec![1.0, 2.0, 3.0])]), Ok(number(2.0)));
    assert_eq!(third(vec![list(vec![1.0, 2.0, 3.0])]), Ok(number(3.0)));
    assert_eq!(last(vec![list(vec![1.0, 2.0, 3.0])]), Ok(number(3.0)));
    assert_eq!(tail(vec![list(vec![1.0, 2.0, 3.0])]), Ok(list(vec![2.0, 3.0])));
    assert_eq!(tail(vec![list(vec![1.0])]), Ok(list(vec![])));
    assert_eq!(tail(vec![list(vec![])]), Ok(list(vec![])));
    assert_eq!(first(vec![list(vec![])]), Err("first: list is empty".to_string()));
    assert_eq!(second(vec![list(vec![1.0])]), Err("second: list is empty".to_string()));
    assert_eq!(third(vec![list(vec![1.0, 2.0])]), Err("third: list is empty".to_string()));
    assert_eq!(last(vec![list(vec![])]), Err("last: list is empty".to_string()));
    assert_eq!(first(vec![number(1.0)]), Err("first: expected a list".to_string()));
    assert_eq!(last(vec![]), Err("last: expected a list".to_string()));
    assert_eq!(tail(vec![text("x")]), Err("rest: expected a list".to_string()));
}

#[test]
fn appending() {
    assert_eq!(
        append(vec![list(vec![1.0]), list(vec![2.0, 3.0])]),
        Ok(list(vec![1.0, 2.0, 3.0]))
    );
    assert_eq!(
        append(vec![list(vec![1.0]), text("x")]),
        Ok(Value::List(vec![number(1.0), text("x")]))
    );
    assert_eq!(append(vec![text("x"), list(vec![])]), Err("append: expected two lists".to_string()));
}

#[test]
fn sizes() {
    assert_eq!(len(vec![list(vec![1.0, 2.0])]), Ok(number(2.0)));
    assert_eq!(len(vec![text("héllo")]), Ok(number(5.0)));
    assert_eq!(len(vec![number(1.0)]), Err("len: expected a list or string".to_string()));
    assert_eq!(empty(vec![list(vec![])]), Ok(Value::Boolean(true)));
    assert_eq!(empty(vec![text("a")]), Ok(Value::Boolean(false)));
    assert_eq!(not_empty(vec![list(vec![])]), Ok(Value::Boolean(false)));
    assert_eq!(not_empty(vec![text("a")]), Ok(Value::Boolean(true)));
    assert_eq!(empty(vec![]), Err("empty: expected a list or string".to_string()));
    assert_eq!(not_empty(vec![number(0.0)]), Err("notEmpty: expected a list or string".to_string()));
}

#[test]
fn what_is_asked_of_the_host() {
    assert_eq!(str(vec![number(1.5)]), Ok(Num::from_bits(1.5f64.to_bits())));
    assert_eq!(str(vec![text("x")]), Err("str: expected a number".to_string()));
    assert_eq!(to_number(vec![text("12")]), Ok("12".to_string()));
    assert_eq!(to_number(vec![number(1.0)]), Err("int: expected a number".to_string()));
    assert_eq!(read_file(vec![text("a.txt")]), Ok("a.txt".to_string()));
    assert_eq!(read_file(vec![]), Err("read_file: expected a string".to_string()));
    assert_eq!(
        sum(vec![Value::List(vec![number(1.0), text("x"), number(2.0)])]),
        Ok(vec![Num::from_bits(1.0f64.to_bits()), Num::from_bits(2.0f64.to_bits())])
    );
    assert_eq!(sum(vec![number(1.0)]), Err("sum: expected a list".to_string()));
    assert_eq!(print(vec![text("a")]), Ok(vec![TextPart::Text("a".to_string())]));
    assert_eq!(dolang::eval::builtin::io::println(vec![]), Err("println: expected one argument".to_string()));
    assert_eq!(print(vec![text("a"), text("b")]), Err("print: expected one argument".to_string()));
}

#[test]
fn function_and_list_in_either_order() {
    let f = Value::BuiltinFunc {
        name: "len".to_string(),
        args: BuiltinFuncArgs { length: 1, curried: vec![] },
    };
    let items = vec![number(1.0)];
    let a = dolang::eval::builtin::list::map(vec![f.clone(), Value::List(items.clone())]).unwrap();
    let b = dolang::eval::builtin::list::map(vec![Value::List(items.clone()), f.clone()]).unwrap();
    assert_eq!(a, (f.clone(), items.clone()));
    assert_eq!(a, b);
    assert_eq!(filter(vec![f.clone(), Value::List(items.clone())]), Ok((f.clone(), items)));
    assert_eq!(
        dolang::eval::builtin::list::map(vec![f.clone(), f.clone()]),
        Err("map: expected a function and a list".to_string())
    );
    assert_eq!(filter(vec![f]), Err("filter: expected a function and a list".to_string()));
}

#[test]
fn splitting() {
    let pieces = |s: &str, d: &str| match split(vec![text(d), text(s)]) {
        Ok(Value::List(items)) => items,
        other => panic!("{:?}", other),
    };
    for (s, d) in [
        ("a,b,c", ","),
        ("a,b,", ","),
        (",a", ","),
        ("", ","),
        ("abc", ""),
        ("", ""),
        ("aaa", "aa"),
        ("a--b---c", "--"),
        ("héllo wörld", "ö"),
        ("abc", "abc"),
        ("abc", "abcd"),
    ] {
        let expected: Vec<Value> = s.split(d).map(text).collect();
        assert_eq!(pieces(s, d), expected, "{:?} by {:?}", s, d);
    }
    assert_eq!(split(vec![text(",")]), Err("split: expected two strings".to_string()));
}

#[test]
fn how_values_are_printed() {
    let nested = Value::List(vec![number(1.0), Value::List(vec![text("a"), Value::Boolean(false)])]);
    let parts = format_value(&nested);
    let shown: String = parts
        .iter()
        .map(|p| match p {
            TextPart::Text(s) => s.clone(),
            TextPart::Number(n) => f64::from_bits(n.bits).to_string(),
        })
        .collect();
    assert_eq!(shown, "[1, [a, false]]");
    assert_eq!(format_value(&Value::List(vec![])), vec![
        TextPart::Text("[".to_string()),
        TextPart::Text("]".to_string())
    ]);
}

#[test]
fn the_root_frame_holds_the_builtins() {
    let table = builtin_functions();
    assert_eq!(table.len(), 18);
    let root = Env::new(None);
    for entry in &table {
        match root.get(&entry.name) {
            Some(Value::BuiltinFunc { name, args }) => {
                assert_eq!(name, &entry.name);
                assert_eq!(args.length, entry.args_len);
                assert!(args.curried.is_empty());
            }
            other => panic!("{}: {:?}", entry.name, other),
        }
    }
    let arity = |name: &str| table.iter().find(|e| e.name == name).map(|e| e.args_len);
    assert_eq!(arity("map"), Some(2));
    assert_eq!(arity("filter"), Some(2));
    assert_eq!(arity("append"), Some(2));
    assert_eq!(arity("split"), Some(2));
    assert_eq!(arity("println"), Some(1));
    assert_eq!(arity("nothing"), None);
    let names: Vec<&String> = root.variables.iter().map(|b| &b.0).collect();
    let mut sorted = names.clone();
    sorted.sort();
    assert_eq!(names, sorted);
}

#[test]
fn frames_inside_frames() {
    let mut root = Env::new(None);
    root.set("x".to_string(), number(1.0));
    root.set("y".to_string(), number(2.0));
    let mut child = Env::new(Some(Rc::new(root.clone())));
    assert!(child.variables.is_empty());
    child.set("x".to_string(), number(10.0));
    assert_eq!(child.get("x"), Some(&number(10.0)));
    assert_eq!(child.get("y"), Some(&number(2.0)));
    assert_eq!(child.get("z"), None);
    assert_eq!(root.get("x"), Some(&number(1.0)));
    child.set("len".to_string(), number(0.0));
    assert_eq!(child.get("len"), Some(&number(0.0)));
    assert!(matches!(root.get("len"), Some(Value::BuiltinFunc { .. })));
    let before = child.clone();
    child.set("x".to_string(), number(10.0));
    assert_eq!(child, before);
}

#[test]
fn dictionary_order() {
    assert_eq!(text_order("a", "b"), TextOrder::Before);
    assert_eq!(text_order("b", "a"), TextOrder::After);
    assert_eq!(text_order("a", "a"), TextOrder::Same);
    assert_eq!(text_order("", "a"), TextOrder::Before);
    assert_eq!(text_order("ab", "a"), TextOrder::After);
    assert_eq!(text_order("", ""), TextOrder::Same);
    for (a, b) in [("x", "y"), ("abc", "abd"), ("é", "z"), ("Z", "a"), ("a", "ab")] {
        assert_eq!(text_order(a, b) == TextOrder::Before, a < b);
    }
}

#[test]
fn what_failures_say() {
    assert_eq!(decimal(0), "0");
    assert_eq!(decimal(1234567890), "1234567890");
    assert_eq!(decimal(usize::MAX), usize::MAX.to_string());
    assert_eq!(EvalError::DivisionByZero.message(), "Division by zero");
    assert_eq!(EvalError::IndexOutOfBounds(5).message(), "Index out of bounds: 5");
    assert_eq!(EvalError::ArityMismatch(1, 2).message(), "Too many arguments: expected 1, but got 2");
    assert_eq!(EvalError::UndefinedVariable("x".to_string()).message(), "Undefined variable: x");
    assert_eq!(EvalError::FieldNotFound("f".to_string()).message(), "Field not found: f");
    assert_eq!(EvalError::PatternMatchExhausted.message(), "No matching case found");
    assert_eq!(EvalError::TypeMismatch("here".to_string()).message(), "Type mismatch: here");
    assert_eq!(EvalError::IOError("gone".to_string()).message(), "gone");
}

#[test]
fn tokens_for_a_reader() {
    let tokens = tokenize("let x = \"a\" 1.5");
    assert_eq!(format_token(&tokens[0]), "Let (let)");
    assert_eq!(format_token(&tokens[1]), "Identifier (x)");
    assert_eq!(format_token(&tokens[3]), "String (\"a\")");
    assert_eq!(format_token(&tokens[4]), "Number (1.5)");
    let lines = print_tokens(&tokens);
    assert_eq!(lines.len(), 6);
    assert_eq!(lines[0], "   0: Let (let)");
    assert_eq!(lines[5], "   5: EOF");
}
