use crate::ast::{names_view, Expr, SpecExpr};
use crate::eval::env::{
    bindings_get, bindings_put, lemma_get_after_put, lemma_get_other_after_put, lookup, slot, Env,
    SpecEnv,
};
use crate::text::{lemma_text_less_asymmetric, text_less};
use crate::eval::error::{EvalError, SpecEvalError};
use crate::eval::value::{values_view, BuiltinFuncArgs, SpecValue, Value};
use std::rc::Rc;
use vstd::prelude::*;

verus! {

/// What applying a function to arguments comes to.
#[derive(Debug, PartialEq)]
pub enum Applied {
    /// The function is a closure that got all its arguments: the value of the call is
    /// that of `body` in `env`.
    Enter { body: Expr, env: Env },
    /// The call is over and has this value: a function that waits for more arguments.
    Value(Value),
    /// The function is a builtin that got all its arguments: the value of the call is
    /// what the builtin `name` makes of `args`.
    Invoke { name: String, args: Vec<Value> },
    /// The call fails.
    Error(EvalError),
}

/// The mathematical value of an [`Applied`].
pub enum SpecApplied {
    Enter { body: SpecExpr, env: SpecEnv },
    Value(SpecValue),
    Invoke { name: Seq<char>, args: Seq<SpecValue> },
    Error(SpecEvalError),
}

impl Applied {
    pub open spec fn view(&self) -> SpecApplied {
        match self {
            Applied::Enter { body, env } => SpecApplied::Enter { body: body@, env: env@ },
            Applied::Value(v) => SpecApplied::Value(v@),
            Applied::Invoke { name, args } => SpecApplied::Invoke {
                name: name@,
                args: values_view(args@),
            },
            Applied::Error(e) => SpecApplied::Error(e@),
        }
    }
}

/// `bindings` with the first `count` of `params` bound to the arguments given for them,
/// in order: of two parameters of one name, the later one stays.
pub open spec fn bind_params(
    bindings: Seq<(Seq<char>, SpecValue)>,
    params: Seq<Seq<char>>,
    args: Seq<SpecValue>,
    count: nat,
) -> Seq<(Seq<char>, SpecValue)>
    decreases count,
{
    if count == 0 {
        bindings
    } else {
        bindings_put(
            bind_params(bindings, params, args, (count - 1) as nat),
            params[count - 1],
            args[count - 1],
        )
    }
}

/// The frame of a call: the arguments under the names of the parameters they are given for,
/// inside the frame that the closure was made in.
pub open spec fn call_frame(params: Seq<Seq<char>>, args: Seq<SpecValue>, env: SpecEnv) -> SpecEnv {
    SpecEnv {
        variables: bind_params(Seq::empty(), params, args, args.len()),
        parent: Some(Box::new(env)),
    }
}

/// A closure applied to arguments. With as many arguments as parameters, its body is to be
/// evaluated in the frame of the call. With fewer, the call gives a closure of the parameters
/// that are left, made in the frame of the call. With more, it fails.
pub open spec fn spec_eval_func(
    params: Seq<Seq<char>>,
    body: SpecExpr,
    env: SpecEnv,
    args: Seq<SpecValue>,
) -> SpecApplied {
    if args.len() > params.len() {
        SpecApplied::Error(SpecEvalError::ArityMismatch(params.len() as usize, args.len() as usize))
    } else if args.len() == params.len() {
        SpecApplied::Enter { body, env: call_frame(params, args, env) }
    } else {
        SpecApplied::Value(
            SpecValue::Func {
                params: params.subrange(args.len() as int, params.len() as int),
                body: Box::new(body),
                env: Box::new(call_frame(params, args, env)),
            },
        )
    }
}

/// A builtin function applied to arguments, after those it was given before. With as many
/// arguments as it waits for, the builtin is to be invoked on all of them. With fewer, the call
/// gives the function again, waiting for the rest. With more, it fails.
pub open spec fn spec_eval_builtin_func(
    name: Seq<char>,
    length: nat,
    curried: Seq<SpecValue>,
    args: Seq<SpecValue>,
) -> SpecApplied {
    if args.len() > length {
        SpecApplied::Error(SpecEvalError::ArityMismatch(length as usize, args.len() as usize))
    } else if args.len() == length {
        SpecApplied::Invoke { name, args: curried + args }
    } else {
        SpecApplied::Value(
            SpecValue::BuiltinFunc { name, length: (length - args.len()) as nat, curried: curried + args },
        )
    }
}

/// A value applied to arguments: a closure or a builtin function as above;
/// nothing else can be called.
pub open spec fn spec_apply(func: SpecValue, args: Seq<SpecValue>) -> SpecApplied {
    match func {
        SpecValue::Func { params, body, env } => spec_eval_func(params, *body, *env, args),
        SpecValue::BuiltinFunc { name, length, curried } => spec_eval_builtin_func(
            name,
            length,
            curried,
            args,
        ),
        _ => SpecApplied::Error(SpecEvalError::TypeMismatch("Function call requires a function"@)),
    }
}

/// A closure of the two parameters `x` and `y`.
pub open spec fn closure_of_two(x: Seq<char>, y: Seq<char>, body: SpecExpr, env: SpecEnv) -> SpecValue {
    SpecValue::Func { params: seq![x, y], body: Box::new(body), env: Box::new(env) }
}

/// What a closure of the two parameters `x` and `y` gives when it is applied to `a` alone:
/// a closure of the one parameter `y`, made in the frame in which `x` is bound to `a`.
pub open spec fn curried(x: Seq<char>, y: Seq<char>, body: SpecExpr, env: SpecEnv, a: SpecValue) -> SpecValue {
    SpecValue::Func {
        params: seq![y],
        body: Box::new(body),
        env: Box::new(call_frame(seq![x, y], seq![a], env)),
    }
}

/// The frame of the call of a closure of the parameters `x` and `y` that got `a` first
/// and then `b`.
pub open spec fn frame_in_steps(x: Seq<char>, y: Seq<char>, env: SpecEnv, a: SpecValue, b: SpecValue) -> SpecEnv {
    call_frame(seq![y], seq![b], call_frame(seq![x, y], seq![a], env))
}

/// The frame of the call of a closure of the parameters `x` and `y` that got `a` and `b`
/// at once.
pub open spec fn frame_at_once(x: Seq<char>, y: Seq<char>, env: SpecEnv, a: SpecValue, b: SpecValue) -> SpecEnv {
    call_frame(seq![x, y], seq![a, b], env)
}

/// Currying: a closure of two parameters, applied to one argument, gives a closure of the
/// one parameter that is left. That closure, applied to the second argument, has the body
/// evaluated that the first closure has evaluated when it is applied to both arguments at
/// once, and in a frame in which every name stands for the same value.
pub proof fn lemma_currying(
    x: Seq<char>,
    y: Seq<char>,
    body: SpecExpr,
    env: SpecEnv,
    a: SpecValue,
    b: SpecValue,
)
    ensures
        spec_apply(closure_of_two(x, y, body, env), seq![a]) == SpecApplied::Value(curried(x, y, body, env, a)),
        spec_apply(curried(x, y, body, env, a), seq![b]) == (SpecApplied::Enter {
            body,
            env: frame_in_steps(x, y, env, a, b),
        }),
        spec_apply(closure_of_two(x, y, body, env), seq![a, b]) == (SpecApplied::Enter {
            body,
            env: frame_at_once(x, y, env, a, b),
        }),
        forall|name: Seq<char>|
            #[trigger] lookup(frame_in_steps(x, y, env, a, b), name) == lookup(
                frame_at_once(x, y, env, a, b),
                name,
            ),
{
    assert(seq![x, y].subrange(1, 2) =~= seq![y]);
    reveal_with_fuel(bind_params, 3);
    reveal_with_fuel(slot, 3);
    let none = Seq::<(Seq<char>, SpecValue)>::empty();
    let first = bindings_put(none, x, a);
    assert(first =~= seq![(x, a)]);
    let both = bindings_put(first, y, b);
    let second = bindings_put(none, y, b);
    assert(second =~= seq![(y, b)]);
    assert(bind_params(none, seq![x, y], seq![a, b], 2) == both);
    assert(bind_params(none, seq![x, y], seq![a], 1) == first);
    assert(bind_params(none, seq![y], seq![b], 1) == second);
    if y == x {
        assert(both =~= seq![(x, b)]);
    } else if text_less(y, x) {
        assert(both =~= seq![(y, b), (x, a)]);
        lemma_text_less_asymmetric(y, x, 0);
    } else {
        assert(both =~= seq![(x, a), (y, b)]);
    }
    assert forall|name: Seq<char>|
        #[trigger] lookup(frame_in_steps(x, y, env, a, b), name) == lookup(
            frame_at_once(x, y, env, a, b),
            name,
        ) by {
        reveal_with_fuel(lookup, 3);
        let in_steps = frame_in_steps(x, y, env, a, b);
        let at_once = frame_at_once(x, y, env, a, b);
        let middle = call_frame(seq![x, y], seq![a], env);
        assert(middle.variables == first);
        assert(middle.parent == Some(Box::new(env)));
        assert(at_once.parent == Some(Box::new(env)));
        assert(in_steps.variables == second);
        assert(in_steps.parent == Some(Box::new(middle)));
        assert(at_once.variables == both);
        if name == y {
            assert(bindings_get(second, name) == Some(b));
            assert(bindings_get(both, name) == Some(b));
        } else if name == x {
            assert(bindings_get(second, name) is None);
            assert(bindings_get(first, name) == Some(a));
            assert(bindings_get(both, name) == Some(a));
        } else {
            assert(bindings_get(second, name) is None);
            assert(bindings_get(first, name) is None);
            assert(bindings_get(both, name) is None);
        }
    }
}

/// The argument that the first `count` of `params` bind `name` to: that of the last
/// parameter of this name.
pub open spec fn bound_by(params: Seq<Seq<char>>, args: Seq<SpecValue>, count: nat, name: Seq<char>) -> Option<
    SpecValue,
>
    decreases count,
{
    if count == 0 {
        None
    } else if params[count - 1] == name {
        Some(args[count - 1])
    } else {
        bound_by(params, args, (count - 1) as nat, name)
    }
}

/// In the frame of a call a name stands for the argument of the last parameter of this name.
pub proof fn lemma_get_bound(
    base: Seq<(Seq<char>, SpecValue)>,
    params: Seq<Seq<char>>,
    args: Seq<SpecValue>,
    count: nat,
    name: Seq<char>,
)
    ensures
        bindings_get(bind_params(base, params, args, count), name) == match bound_by(
            params,
            args,
            count,
            name,
        ) {
            Some(v) => Some(v),
            None => bindings_get(base, name),
        },
    decreases count,
{
    if count > 0 {
        let before = bind_params(base, params, args, (count - 1) as nat);
        lemma_get_bound(base, params, args, (count - 1) as nat, name);
        if params[count - 1] == name {
            lemma_get_after_put(before, params[count - 1], args[count - 1]);
        } else {
            lemma_get_other_after_put(before, params[count - 1], args[count - 1], name);
        }
    }
}

/// What the first parameters bind a name to does not depend on the arguments of the others.
proof fn lemma_bound_by_prefix(
    params: Seq<Seq<char>>,
    first: Seq<SpecValue>,
    rest: Seq<SpecValue>,
    count: nat,
    name: Seq<char>,
)
    requires
        count <= first.len(),
    ensures
        bound_by(params, first + rest, count, name) == bound_by(params, first, count, name),
    decreases count,
{
    if count > 0 {
        lemma_bound_by_prefix(params, first, rest, (count - 1) as nat, name);
    }
}

/// What all the parameters bind a name to is what the later ones bind it to, and else what
/// the earlier ones do.
proof fn lemma_bound_by_split(
    params: Seq<Seq<char>>,
    first: Seq<SpecValue>,
    rest: Seq<SpecValue>,
    count: nat,
    name: Seq<char>,
)
    requires
        first.len() + rest.len() == params.len(),
        count <= rest.len(),
    ensures
        bound_by(params, first + rest, first.len() + count, name) == match bound_by(
            params.subrange(first.len() as int, params.len() as int),
            rest,
            count,
            name,
        ) {
            Some(v) => Some(v),
            None => bound_by(params, first, first.len(), name),
        },
    decreases count,
{
    if count == 0 {
        lemma_bound_by_prefix(params, first, rest, first.len(), name);
    } else {
        lemma_bound_by_split(params, first, rest, (count - 1) as nat, name);
        let tail = params.subrange(first.len() as int, params.len() as int);
        assert(tail[count - 1] == params[first.len() + count - 1]);
        assert((first + rest)[first.len() + count - 1] == rest[count - 1]);
    }
}

/// Currying, for any number of parameters: a closure that is applied to some of its
/// arguments `first`, and then to all the others `rest`, has the body evaluated that it has
/// evaluated when it is applied to all of them at once, and in a frame in which `name`,
/// whatever it is, stands for the same value.
pub proof fn lemma_currying_in_general(
    params: Seq<Seq<char>>,
    body: SpecExpr,
    env: SpecEnv,
    first: Seq<SpecValue>,
    rest: Seq<SpecValue>,
    name: Seq<char>,
)
    requires
        first.len() + rest.len() == params.len(),
        rest.len() > 0,
    ensures
        spec_eval_func(params, body, env, first) == SpecApplied::Value(
            SpecValue::Func {
                params: params.subrange(first.len() as int, params.len() as int),
                body: Box::new(body),
                env: Box::new(call_frame(params, first, env)),
            },
        ),
        spec_eval_func(
            params.subrange(first.len() as int, params.len() as int),
            body,
            call_frame(params, first, env),
            rest,
        ) == (SpecApplied::Enter {
            body,
            env: call_frame(
                params.subrange(first.len() as int, params.len() as int),
                rest,
                call_frame(params, first, env),
            ),
        }),
        spec_eval_func(params, body, env, first + rest) == (SpecApplied::Enter {
            body,
            env: call_frame(params, first + rest, env),
        }),
        lookup(
            call_frame(
                params.subrange(first.len() as int, params.len() as int),
                rest,
                call_frame(params, first, env),
            ),
            name,
        ) == lookup(call_frame(params, first + rest, env), name),
{
    let none = Seq::<(Seq<char>, SpecValue)>::empty();
    let tail = params.subrange(first.len() as int, params.len() as int);
    let middle = call_frame(params, first, env);
    let in_steps = call_frame(tail, rest, middle);
    let at_once = call_frame(params, first + rest, env);
    reveal_with_fuel(lookup, 3);
    lemma_get_bound(none, tail, rest, rest.len(), name);
    lemma_get_bound(none, params, first, first.len(), name);
    lemma_get_bound(none, params, first + rest, (first + rest).len(), name);
    lemma_bound_by_split(params, first, rest, rest.len(), name);
    assert(bindings_get(none, name) is None);
    assert(in_steps.parent == Some(Box::new(middle)));
    assert(middle.parent == Some(Box::new(env)));
    assert(at_once.parent == Some(Box::new(env)));
}

/// The values of two lists joined are the values of the one followed by those of the other.
pub proof fn lemma_values_view_add(a: Seq<Value>, b: Seq<Value>)
    ensures
        values_view(a + b) == values_view(a) + values_view(b),
{
    assert(values_view(a + b) =~= values_view(a) + values_view(b));
}

/// A closure applied to arguments.
pub fn eval_func(params: Vec<String>, body: Box<Expr>, func_env: Rc<Env>, args: Vec<Value>) -> (r:
    Applied)
    ensures
        r@ == spec_eval_func(names_view(params@), (*body)@, (*func_env)@, values_view(args@)),
{
    if args.len() > params.len() {
        return Applied::Error(EvalError::ArityMismatch(params.len(), args.len()));
    }
    let ghost ps = names_view(params@);
    let ghost vs = values_view(args@);
    let ghost parent = (*func_env)@;
    let mut new_env = Env::new(Some(func_env));
    let count = args.len();
    let mut i: usize = 0;
    while i < count
        invariant
            i <= count == args.len() <= params.len(),
            ps == names_view(params@),
            vs == values_view(args@),
            new_env@.parent == Some(Box::new(parent)),
            new_env@.variables == bind_params(Seq::empty(), ps, vs, i as nat),
        decreases count - i,
    {
        let value = args[i].clone();
        new_env.set(params[i].clone(), value);
        i += 1;
    }
    assert(new_env@ == call_frame(ps, vs, parent));
    if count == params.len() {
        Applied::Enter { body: *body, env: new_env }
    } else {
        let mut rest: Vec<String> = Vec::new();
        let mut j: usize = count;
        while j < params.len()
            invariant
                count <= j <= params.len(),
                rest.len() == j - count,
                forall|k: int| 0 <= k < j - count ==> rest@[k]@ == params@[count + k]@,
            decreases params.len() - j,
        {
            rest.push(params[j].clone());
            j += 1;
        }
        assert(names_view(rest@) =~= ps.subrange(count as int, params.len() as int));
        Applied::Value(Value::Func { params: rest, body, env: Rc::new(new_env) })
    }
}

/// A builtin function applied to arguments, after those it was given before.
pub fn eval_builtin_func(name: String, args: BuiltinFuncArgs, call_args: Vec<Value>) -> (r: Applied)
    ensures
        r@ == spec_eval_builtin_func(
            name@,
            args.length as nat,
            values_view(args.curried@),
            values_view(call_args@),
        ),
{
    if call_args.len() > args.length {
        return Applied::Error(EvalError::ArityMismatch(args.length, call_args.len()));
    }
    let length = args.length;
    let given = call_args.len();
    let mut all = args.curried;
    let mut more = call_args;
    proof {
        lemma_values_view_add(all@, more@);
    }
    all.append(&mut more);
    if given == length {
        Applied::Invoke { name, args: all }
    } else {
        Applied::Value(
            Value::BuiltinFunc { name, args: BuiltinFuncArgs { length: length - given, curried: all } },
        )
    }
}

/// A value applied to arguments.
pub fn apply(func: Value, args: Vec<Value>) -> (r: Applied)
    ensures
        r@ == spec_apply(func@, values_view(args@)),
{
    match func {
        Value::Func { params, body, env } => eval_func(params, body, env, args),
        Value::BuiltinFunc { name, args: given } => eval_builtin_func(name, given, args),
        _ => Applied::Error(
            EvalError::TypeMismatch(String::from_str("Function call requires a function")),
        ),
    }
}

} // verus!
