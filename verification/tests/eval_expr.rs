use dolang::ast::{CompOp, Expr, FactorOp, LogicOp, Stmt, TermOp, UnaryOp, AST};
use dolang::eval::builtin::io::TextPart;
use dolang::eval::env::{put_binding, Env};
use dolang::eval::error::EvalError;
use dolang::eval::eval::Evaluator;
use dolang::eval::machine::{Action, Event, Outcome};
use dolang::eval::ops::ArithOp;
use dolang::eval::value::Value;
use dolang::lexer::tokenize;
use dolang::number::Num;
use dolang::parser::Parser;

fn number(x: f64) -> Value {
    Value::Number(Num::from_bits(x.to_bits()))
}

fn text(s: &str) -> Value {
    Value::String(s.to_string())
}

struct Host {
    output: String,
    files: Vec<(String, String)>,
    steps: usize,
}

impl Host {
    fn new() -> Host {
        Host { output: String::new(), files: Vec::new(), steps: 0 }
    }

    fn answer(&mut self, action: Action) -> Result<Event, Result<Outcome, EvalError>> {
        Ok(match action {
            Action::Continue => Event::Resume,
            Action::ParseNumber(t) => match t.parse::<f64>() {
                Ok(x) => Event::Number(Num::from_bits(x.to_bits())),
                Err(_) => Event::NotANumber,
            },
            Action::Arith { op, left, right } => {
                let a = f64::from_bits(left.bits);
                let b = f64::from_bits(right.bits);
                let r = match op {
                    ArithOp::Add => a + b,
                    ArithOp::Sub => a - b,
                    ArithOp::Mul => a * b,
                    ArithOp::Div => a / b,
                    ArithOp::Rem => a % b,
                };
                Event::Number(Num::from_bits(r.to_bits()))
            }
            Action::FormatNumber(n) => Event::Text(f64::from_bits(n.bits).to_string()),
            Action::Print { parts, newline } => {
                for part in parts {
                    match part {
                        TextPart::Text(s) => self.output.push_str(&s),
                        TextPart::Number(n) => self.output.push_str(&f64::from_bits(n.bits).to_string()),
                    }
                }
                if newline {
                    self.output.push('\n');
                }
                Event::Printed
            }
            Action::ReadFile(path) => match self.files.iter().find(|f| f.0 == path) {
                Some(f) => Event::FileContent(f.1.clone()),
                None => Event::FileError(format!("{}: no such file", path)),
            },
            Action::Done(outcome) => return Err(Ok(outcome)),
            Action::Failed { error, .. } => return Err(Err(error)),
        })
    }

    fn run(&mut self, evaluator: &mut Evaluator) -> Result<Outcome, EvalError> {
        let mut event = Event::Resume;
        loop {
            self.steps += 1;
            assert!(self.steps < 1_000_000, "the evaluation does not end");
            let action = evaluator.step(event);
            event = match self.answer(action) {
                Ok(e) => e,
                Err(end) => return end,
            };
        }
    }

    fn value_of(&mut self, expr: Expr, env: Env) -> Result<Value, EvalError> {
        let mut evaluator = Evaluator::new(".".to_string());
        evaluator.eval_expr(expr, env);
        match self.run(&mut evaluator)? {
            Outcome::Value(v) => Ok(v),
            other => panic!("no value: {:?}", other),
        }
    }

    fn execute(&mut self, ast: AST, env: Env) -> Result<Env, EvalError> {
        let mut evaluator = Evaluator::new(".".to_string());
        evaluator.eval(ast, env);
        match self.run(&mut evaluator)? {
            Outcome::Env(e) => Ok(e),
            other => panic!("no environment: {:?}", other),
        }
    }

    /// Executes the statements of `source`, and gives the value of the last one,
    /// which is to be an expression.
    fn source(&mut self, source: &str) -> Result<Value, EvalError> {
        let mut ast = Parser::new(tokenize(source)).parse().expect("the source does not parse");
        let last = match ast.stmts.pop() {
            Some(Stmt::Expr(e)) => e,
            other => panic!("the last statement is no expression: {:?}", other),
        };
        let env = self.execute(ast, Env::new(None))?;
        self.value_of(last, env)
    }
}

fn lit(x: &str) -> Expr {
    Expr::Number(x.to_string())
}

fn record(fields: Vec<(&str, Value)>) -> Value {
    let mut sorted = Vec::new();
    for (name, value) in fields {
        put_binding(&mut sorted, name.to_string(), value);
    }
    Value::Record(sorted)
}

#[test]
fn test_eval_expr() {
    let test_cases = vec![
        (
            // { name: "John", age: 30 }
            Expr::Record(vec![
                ("name".to_string(), Expr::String("John".to_string())),
                ("age".to_string(), lit("30")),
            ]),
            Ok(record(vec![("name", text("John")), ("age", number(30.0))])),
        ),
        (
            // 5 + 5 == 10 and true -> true
            Expr::Logic {
                left: Box::new(Expr::Comp {
                    left: Box::new(Expr::Term {
                        left: Box::new(lit("5")),
                        op: TermOp::Plus,
                        right: Box::new(lit("5")),
                    }),
                    op: CompOp::Equal,
                    right: Box::new(lit("10")),
                }),
                op: LogicOp::And,
                right: Box::new(Expr::Boolean(true)),
            },
            Ok(Value::Boolean(true)),
        ),
        (
            // 5 == 3 -> false
            Expr::Comp { left: Box::new(lit("5")), op: CompOp::Equal, right: Box::new(lit("3")) },
            Ok(Value::Boolean(false)),
        ),
        (
            // 5 + 3 -> 8
            Expr::Term { left: Box::new(lit("5")), op: TermOp::Plus, right: Box::new(lit("3")) },
            Ok(number(8.0)),
        ),
        (
            // 5 * 3 -> 15
            Expr::Factor { left: Box::new(lit("5")), op: FactorOp::Multiply, right: Box::new(lit("3")) },
            Ok(number(15.0)),
        ),
        (
            Expr::Unary { op: UnaryOp::Minus, right: Box::new(lit("5")) },
            Ok(number(-5.0)),
        ), // -5 -> -5
        (lit("5"), Ok(number(5.0))), // 5 -> 5
    ];

    for (input, expected) in test_cases {
        let shown = format!("{:?}", input);
        let env = Env::new(None);
        let result = Host::new().value_of(input, env);
        assert_eq!(result, expected, "Failed for input: {:?}", shown);
    }
}

#[test]
fn let_then_use() {
    assert_eq!(Host::new().source("let x = 10\nx + 5"), Ok(number(15.0)));
}

#[test]
fn let_twice_keeps_the_value() {
    let mut host = Host::new();
    let once = Parser::new(tokenize("let x = 2 * 21")).parse().unwrap();
    let twice = Parser::new(tokenize("let x = 2 * 21\nlet x = 2 * 21")).parse().unwrap();
    let a = host.execute(once, Env::new(None)).unwrap();
    let b = host.execute(twice, Env::new(None)).unwrap();
    assert_eq!(a.get("x"), Some(&number(42.0)));
    assert_eq!(a, b);
}

#[test]
fn currying_two_parameters() {
    let mut host = Host::new();
    let partial = host.source("let add = fn x, y -> x + y * 2\nadd(1)").unwrap();
    match &partial {
        Value::Func { params, .. } => assert_eq!(params, &vec!["y".to_string()]),
        other => panic!("no closure: {:?}", other),
    }
    let in_steps = host.source("let add = fn x, y -> x + y * 2\nlet inc = add(1)\ninc(20)");
    let at_once = host.source("let add = fn x, y -> x + y * 2\nadd(1, 20)");
    assert_eq!(in_steps, Ok(number(41.0)));
    assert_eq!(in_steps, at_once);
}

#[test]
fn too_many_arguments() {
    assert_eq!(
        Host::new().source("let f = fn x -> x\nf(1, 2)"),
        Err(EvalError::ArityMismatch(1, 2))
    );
    assert_eq!(Host::new().source("len(1, 2)"), Err(EvalError::ArityMismatch(1, 2)));
}

#[test]
fn builtin_waits_for_its_arguments() {
    let mut host = Host::new();
    let v = host.source("let a = append([1])\na(2)").unwrap();
    assert_eq!(v, Value::List(vec![number(1.0), number(2.0)]));
}

#[test]
fn map_and_filter() {
    let mut host = Host::new();
    assert_eq!(
        host.source("map([1, 2, 3], fn x -> x * 2)"),
        Ok(Value::List(vec![number(2.0), number(4.0), number(6.0)]))
    );
    assert_eq!(
        host.source("filter([1, 2, 3, 4], fn x -> x % 2 == 0)"),
        Ok(Value::List(vec![number(2.0), number(4.0)]))
    );
    assert_eq!(
        host.source("map(fn x -> x + 1, [1, 2])"),
        Ok(Value::List(vec![number(2.0), number(3.0)]))
    );
    assert_eq!(host.source("map([], fn x -> x)"), Ok(Value::List(vec![])));
    assert_eq!(
        host.source("map([[1], [2, 3]], len)"),
        Ok(Value::List(vec![number(1.0), number(2.0)]))
    );
}

#[test]
fn pipe_feeds_the_last_argument() {
    let mut host = Host::new();
    assert_eq!(
        host.source("[1, 2, 3] |> filter(fn x -> x > 1)"),
        Ok(Value::List(vec![number(2.0), number(3.0)]))
    );
    assert_eq!(host.source("[1, 2, 3] |> len"), Ok(number(3.0)));
    assert_eq!(host.source("let f = fn a, b -> a - b\n1 |> f(10)"), Ok(number(9.0)));
    assert!(matches!(host.source("1 |> 2"), Err(EvalError::TypeMismatch(_))));
}

#[test]
fn match_picks_the_first_case() {
    let mut host = Host::new();
    assert_eq!(host.source("match 2 | 1 -> \"one\" | 2 -> \"two\""), Ok(text("two")));
    assert_eq!(
        host.source("match 3 | 1 -> \"one\" | 2 -> \"two\""),
        Err(EvalError::PatternMatchExhausted)
    );
    assert_eq!(host.source("match 3 | 1 -> \"one\" | _ -> \"other\""), Ok(text("other")));
    assert_eq!(host.source("match \"a\" | 1 -> 1 | \"a\" -> 2"), Ok(number(2.0)));
    assert_eq!(host.source("match true | false -> 1 | true -> 2"), Ok(number(2.0)));
    assert_eq!(host.source("match 1 | \"1\" -> 1 | true -> 2 | 1.0 -> 3"), Ok(number(3.0)));
}

#[test]
fn division() {
    let mut host = Host::new();
    assert_eq!(host.source("5 / 0"), Err(EvalError::DivisionByZero));
    assert_eq!(host.source("5 % 0"), Err(EvalError::DivisionByZero));
    assert_eq!(host.source("5 % 2"), Ok(number(1.0)));
    assert_eq!(host.source("5 / 2"), Ok(number(2.5)));
    assert_eq!(host.source("1 - 2 - 3"), Ok(number(-4.0)));
    assert_eq!(host.source("2 * 3 + 4 * 5"), Ok(number(26.0)));
}

#[test]
fn indexing() {
    let mut host = Host::new();
    assert_eq!(host.source("let l = [10, 20, 30]\nl[5]"), Err(EvalError::IndexOutOfBounds(5)));
    assert_eq!(host.source("let l = [10, 20, 30]\nl[1]"), Ok(number(20.0)));
    assert_eq!(host.source("let l = [10, 20, 30]\nl[1.9]"), Ok(number(20.0)));
    assert_eq!(host.source("let s = \"hello\"\ns[1..3]"), Ok(text("el")));
    assert_eq!(host.source("let s = \"hello\"\ns[..2]"), Ok(text("he")));
    assert_eq!(host.source("let s = \"hello\"\ns[3..]"), Ok(text("lo")));
    assert_eq!(host.source("let s = \"hello\"\ns[1]"), Ok(text("e")));
    assert_eq!(host.source("let s = \"hello\"\ns[3..9]"), Err(EvalError::IndexOutOfBounds(9)));
    assert_eq!(
        host.source("let l = [10, 20, 30]\nl[1..]"),
        Ok(Value::List(vec![number(20.0), number(30.0)]))
    );
    let by_list = Expr::Index {
        list: Box::new(Expr::List(vec![lit("10"), lit("20"), lit("30")])),
        index: Box::new(Expr::List(vec![lit("2"), lit("0")])),
    };
    assert_eq!(
        host.value_of(by_list, Env::new(None)),
        Ok(Value::List(vec![number(30.0), number(10.0)]))
    );
    let literal = Expr::Index {
        list: Box::new(Expr::List(vec![lit("10"), lit("20"), lit("30")])),
        index: Box::new(lit("5")),
    };
    assert_eq!(host.value_of(literal, Env::new(None)), Err(EvalError::IndexOutOfBounds(5)));
    let part = Expr::Index {
        list: Box::new(Expr::String("hello".to_string())),
        index: Box::new(Expr::Range { start: Box::new(lit("1")), end: Box::new(lit("3")) }),
    };
    assert_eq!(host.value_of(part, Env::new(None)), Ok(text("el")));
}

#[test]
fn ranges() {
    let mut host = Host::new();
    assert_eq!(
        host.source("1..3"),
        Ok(Value::List(vec![number(1.0), number(2.0), number(3.0)]))
    );
    assert!(matches!(host.source("3..1"), Err(EvalError::TypeMismatch(_))));
}

#[test]
fn conditions_and_logic() {
    let mut host = Host::new();
    assert_eq!(host.source("if 1 < 2 then \"yes\" else \"no\""), Ok(text("yes")));
    assert_eq!(host.source("if 1 >= 2 then \"yes\" else \"no\""), Ok(text("no")));
    assert!(matches!(host.source("if 1 then 2 else 3"), Err(EvalError::TypeMismatch(_))));
    assert_eq!(host.source("true and false"), Ok(Value::Boolean(false)));
    assert_eq!(host.source("true or false"), Ok(Value::Boolean(true)));
    assert_eq!(host.source("not true"), Ok(Value::Boolean(false)));
    assert!(matches!(host.source("1 and true"), Err(EvalError::TypeMismatch(_))));
    assert!(matches!(host.source("1 == \"1\""), Err(EvalError::TypeMismatch(_))));
    assert_eq!(host.source("\"a\" + \"b\""), Ok(text("ab")));
    assert_eq!(host.source("[1, 2] == [1, 2]"), Ok(Value::Boolean(true)));
    assert_eq!(host.source("[1, 2] != [1, 3]"), Ok(Value::Boolean(true)));
    assert_eq!(host.source("{ a: 1, b: 2 } == { b: 2, a: 1 }"), Ok(Value::Boolean(true)));
    assert_eq!(host.source("let f = fn x -> x + 1\nf == f"), Ok(Value::Boolean(true)));
    assert_eq!(host.source("let f = fn x -> x + 1\nlet g = fn x -> x + 2\nf != g"), Ok(Value::Boolean(true)));
    assert_eq!(host.source("len == len"), Ok(Value::Boolean(true)));
    assert_eq!(host.source("append([1]) == append([2])"), Ok(Value::Boolean(false)));
    assert!(matches!(host.source("let f = fn x -> x\nf == len"), Err(EvalError::TypeMismatch(_))));
}

#[test]
fn records_and_fields() {
    let mut host = Host::new();
    assert_eq!(host.source("let r = { name: \"John\", age: 30 }\nr.age"), Ok(number(30.0)));
    assert_eq!(
        host.source("let r = { name: \"John\" }\nr.age"),
        Err(EvalError::FieldNotFound("age".to_string()))
    );
    assert_eq!(host.source("let r = { a: 1, a: 2 }\nr.a"), Ok(number(2.0)));
    assert!(matches!(host.source("let r = 1\nr.a"), Err(EvalError::TypeMismatch(_))));
}

#[test]
fn names_and_scopes() {
    let mut host = Host::new();
    assert_eq!(host.source("y"), Err(EvalError::UndefinedVariable("y".to_string())));
    assert_eq!(host.source("let x = 1\nlet f = fn _ -> x\nlet x = 2\nf()"), Ok(number(1.0)));
    assert_eq!(host.source("let len = 3\nlen"), Ok(number(3.0)));
    assert_eq!(host.source("let x = 1\nlet f = fn x -> x + 1\nf(10) + x"), Ok(number(12.0)));
}

#[test]
fn printing() {
    let mut host = Host::new();
    assert_eq!(host.source("println([1, \"a\", true, { k: 2.5 }])"), Ok(number(0.0)));
    assert_eq!(host.source("print(len)"), Ok(number(0.0)));
    assert_eq!(host.source("print(fn a, b -> a)"), Ok(number(0.0)));
    assert_eq!(host.output, "[1, a, true, {k: 2.5}]\nBuiltin function: lenFunction: a, b");
}

#[test]
fn text_and_numbers() {
    let mut host = Host::new();
    assert_eq!(host.source("str(1.5)"), Ok(text("1.5")));
    assert_eq!(host.source("int(\"42\")"), Ok(number(42.0)));
    assert!(matches!(host.source("int(\"x\")"), Err(EvalError::TypeMismatch(_))));
    assert_eq!(host.source("sum([1, 2, \"x\", 3.5])"), Ok(number(6.5)));
    assert_eq!(host.source("sum([])"), Ok(number(0.0)));
    assert_eq!(host.source("len(\"hello\")"), Ok(number(5.0)));
    assert_eq!(
        host.source("split(\",\", \"a,b,,c\")"),
        Ok(Value::List(vec![text("a"), text("b"), text(""), text("c")]))
    );
    assert_eq!(
        host.source("split(\"\", \"ab\")"),
        Ok(Value::List(vec![text(""), text("a"), text("b"), text("")]))
    );
}

#[test]
fn files_and_modules() {
    let mut host = Host::new();
    host.files.push(("notes.txt".to_string(), "hello".to_string()));
    host.files.push(("./geometry.do".to_string(), "let pi = 3\nlet double = fn x -> x * 2".to_string()));
    host.files.push(("./broken.do".to_string(), "let = 3".to_string()));
    host.files.push(("./failing.do".to_string(), "1 / 0".to_string()));
    assert_eq!(host.source("read_file(\"notes.txt\")"), Ok(text("hello")));
    assert!(matches!(host.source("read_file(\"none.txt\")"), Err(EvalError::IOError(_))));

    let import = |module: &str, then: &str| {
        let mut ast = Parser::new(tokenize(then)).parse().unwrap();
        ast.stmts.insert(0, Stmt::Import { module: module.to_string() });
        ast
    };
    let env = host.execute(import("geometry", "let d = geometry.double(geometry.pi)"), Env::new(None)).unwrap();
    assert_eq!(env.get("d"), Some(&number(6.0)));
    match host.execute(import("broken", "1"), Env::new(None)) {
        Err(EvalError::IOError(m)) => assert!(m.contains("broken"), "{}", m),
        other => panic!("{:?}", other),
    }
    match host.execute(import("failing", "1"), Env::new(None)) {
        Err(EvalError::IOError(m)) => assert!(m.contains("failing") && m.contains("Division by zero"), "{}", m),
        other => panic!("{:?}", other),
    }
    match host.execute(import("missing", "1"), Env::new(None)) {
        Err(EvalError::IOError(m)) => assert!(m.contains("missing"), "{}", m),
        other => panic!("{:?}", other),
    }
}

#[test]
fn failure_keeps_what_was_built() {
    let ast = Parser::new(tokenize("let x = 1\nlet y = x / 0\nlet z = 3")).parse().unwrap();
    let mut evaluator = Evaluator::new(".".to_string());
    evaluator.eval(ast, Env::new(None));
    let mut host = Host::new();
    let mut event = Event::Resume;
    loop {
        match evaluator.resume_with(event, 16) {
            Action::Failed { error, env } => {
                assert_eq!(error, EvalError::DivisionByZero);
                let env = env.unwrap();
                assert_eq!(env.get("x"), Some(&number(1.0)));
                assert_eq!(env.get("z"), None);
                break;
            }
            other => event = host.answer(other).unwrap(),
        }
    }
    assert_eq!(evaluator.step(Event::Resume), Action::Done(Outcome::Nothing));
}

#[test]
fn an_endless_program_never_blocks_a_step() {
    let mut evaluator = Evaluator::new(".".to_string());
    let ast = Parser::new(tokenize("let w = fn x -> x(x)\nw(w)")).parse().unwrap();
    evaluator.eval(ast, Env::new(None));
    let mut host = Host::new();
    let mut event = Event::Resume;
    for _ in 0..10_000 {
        event = host.answer(evaluator.step(event)).unwrap();
    }
}

#[test]
fn unexpected_answer() {
    let mut evaluator = Evaluator::new(".".to_string());
    evaluator.eval_expr(lit("1"), Env::new(None));
    assert_eq!(evaluator.step(Event::Resume), Action::ParseNumber("1".to_string()));
    assert!(matches!(
        evaluator.step(Event::Printed),
        Action::Failed { error: EvalError::IOError(_), env: None }
    ));
}

#[test]
fn a_pipeline() {
    let mut host = Host::new();
    assert_eq!(
        host.source("let nums = [1, 2, 3, 4, 5]\nnums |> filter(fn n -> n % 2 != 0) |> map(fn n -> n * n) |> sum"),
        Ok(number(35.0))
    );
    assert_eq!(
        host.source("let words = split(\" \", \"one two three\")\nwords |> map(len)"),
        Ok(Value::List(vec![number(3.0), number(3.0), number(5.0)]))
    );
    assert_eq!(host.source("filter([1, 2], fn x -> x)"), Ok(Value::List(vec![])));
}

#[test]
fn a_function_that_calls_itself() {
    let mut host = Host::new();
    let source = "let fact = fn self, n -> if n <= 1 then 1 else n * self(self, n - 1)\nfact(fact, 5)";
    assert_eq!(host.source(source), Ok(number(120.0)));
    let source = "let fib = fn self, n -> match n | 0 -> 0 | 1 -> 1 | _ -> self(self, n - 1) + self(self, n - 2)\nfib(fib, 10)";
    assert_eq!(host.source(source), Ok(number(55.0)));
}

#[test]
fn closures_keep_their_frame() {
    let mut host = Host::new();
    let source = "let make = fn a -> fn b -> fn c -> a + b * c\nlet f = make(1)\nlet g = f(2)\ng(3) + make(10)(20)(30)";
    assert_eq!(host.source(source), Ok(number(617.0)));
    let source = "let twice = fn f, x -> f(f(x))\ntwice(fn n -> n * 3, 2)";
    assert_eq!(host.source(source), Ok(number(18.0)));
    let source = "let r = { f: fn x -> x + 1, l: [fn y -> y * 2] }\nr.f(1)";
    assert_eq!(host.source(source), Ok(number(2.0)));
}

#[test]
fn arguments_are_evaluated_in_order() {
    let mut host = Host::new();
    let source = "let f = fn a, b, c -> c\nf(println(1), println(2), println(3))";
    assert_eq!(host.source(source), Ok(number(0.0)));
    assert_eq!(host.output, "1\n2\n3\n");
    let mut host = Host::new();
    assert!(matches!(host.source("[println(1), nope, println(2)]"), Err(EvalError::UndefinedVariable(_))));
    assert_eq!(host.output, "1\n");
    let mut host = Host::new();
    assert_eq!(host.source("let f = fn _ -> 1\nf(println(1))"), Err(EvalError::ArityMismatch(0, 1)));
    assert_eq!(host.output, "");
}

#[test]
fn odd_bounds() {
    let mut host = Host::new();
    assert_eq!(host.source("let l = [1, 2, 3]\nlet t = true\nl[t..2]"), Ok(Value::List(vec![number(1.0), number(2.0)])));
    assert_eq!(host.source("let l = [1, 2, 3]\nl[-1]"), Ok(number(1.0)));
    assert_eq!(host.source("let l = [1, 2, 3]\nl[2..1]"), Err(EvalError::IndexOutOfBounds(1)));
    assert!(matches!(host.source("let n = 5\nn[0]"), Err(EvalError::TypeMismatch(_))));
    assert!(matches!(host.source("let n = 5\nn[0..1]"), Err(EvalError::TypeMismatch(_))));
    assert_eq!(host.source("int(\"1e3\")"), Ok(number(1000.0)));
    assert_eq!(host.source("0.1 + 0.2"), Ok(number(0.1 + 0.2)));
    assert_eq!(host.source("str(0.1 + 0.2)"), Ok(text("0.30000000000000004")));
    assert_eq!(host.source("1 / 3 * 3 == 1"), Ok(Value::Boolean(true)));
}
