use crate::eval::builtin::etc::result_view;
use crate::eval::value::{clone_values, values_view, SpecValue, Value};
use crate::number::Num;
use vstd::prelude::*;

verus! {

/// Whether a value can be called: a closure or a builtin function.
pub open spec fn is_callable(v: SpecValue) -> bool {
    v is Func || v is BuiltinFunc
}

/// What `map` and `filter` are given: a function and the items to hand to it, one by one.
/// The function and the list may come in either order.
pub open spec fn spec_each(args: Seq<SpecValue>, message: Seq<char>) -> Result<
    (SpecValue, Seq<SpecValue>),
    Seq<char>,
> {
    if args.len() == 2 && is_callable(args[0]) && args[1] is List {
        Ok((args[0], args[1]->List_0))
    } else if args.len() == 2 && args[0] is List && is_callable(args[1]) {
        Ok((args[1], args[0]->List_0))
    } else {
        Err(message)
    }
}

/// `map`: the function, and the items whose images make the result.
pub open spec fn spec_map(args: Seq<SpecValue>) -> Result<(SpecValue, Seq<SpecValue>), Seq<char>> {
    spec_each(args, "map: expected a function and a list"@)
}

/// `filter`: the function, and the items of which those stay that it maps to `true`.
pub open spec fn spec_filter(args: Seq<SpecValue>) -> Result<(SpecValue, Seq<SpecValue>), Seq<char>> {
    spec_each(args, "filter: expected a function and a list"@)
}

/// `append`: two lists joined, or a list with one more item at its end.
pub open spec fn spec_append(args: Seq<SpecValue>) -> Result<SpecValue, Seq<char>> {
    if args.len() == 2 && args[0] is List && args[1] is List {
        Ok(SpecValue::List(args[0]->List_0 + args[1]->List_0))
    } else if args.len() == 2 && args[0] is List {
        Ok(SpecValue::List(args[0]->List_0.push(args[1])))
    } else {
        Err("append: expected two lists"@)
    }
}

/// The item at index `n` of the one list given.
pub open spec fn spec_nth(args: Seq<SpecValue>, n: int, none: Seq<char>, wrong: Seq<char>) -> Result<
    SpecValue,
    Seq<char>,
> {
    if args.len() == 1 && args[0] is List {
        if 0 <= n < args[0]->List_0.len() {
            Ok(args[0]->List_0[n])
        } else {
            Err(none)
        }
    } else {
        Err(wrong)
    }
}

/// `first`: the first item of a list.
pub open spec fn spec_first(args: Seq<SpecValue>) -> Result<SpecValue, Seq<char>> {
    spec_nth(args, 0, "first: list is empty"@, "first: expected a list"@)
}

/// `second`: the second item of a list.
pub open spec fn spec_second(args: Seq<SpecValue>) -> Result<SpecValue, Seq<char>> {
    spec_nth(args, 1, "second: list is empty"@, "second: expected a list"@)
}

/// `third`: the third item of a list.
pub open spec fn spec_third(args: Seq<SpecValue>) -> Result<SpecValue, Seq<char>> {
    spec_nth(args, 2, "third: list is empty"@, "third: expected a list"@)
}

/// `last`: the last item of a list.
pub open spec fn spec_last(args: Seq<SpecValue>) -> Result<SpecValue, Seq<char>> {
    if args.len() == 1 && args[0] is List {
        spec_nth(args, args[0]->List_0.len() - 1, "last: list is empty"@, "last: expected a list"@)
    } else {
        Err("last: expected a list"@)
    }
}

/// `tail`: a list without its first item; of an empty list, the empty list.
pub open spec fn spec_tail(args: Seq<SpecValue>) -> Result<SpecValue, Seq<char>> {
    if args.len() == 1 && args[0] is List {
        let items = args[0]->List_0;
        if items.len() > 1 {
            Ok(SpecValue::List(items.subrange(1, items.len() as int)))
        } else {
            Ok(SpecValue::List(Seq::empty()))
        }
    } else {
        Err("rest: expected a list"@)
    }
}

/// The numbers among the first `count` of `items`, in order.
pub open spec fn numbers_of(items: Seq<SpecValue>, count: nat) -> Seq<Num>
    decreases count,
{
    if count == 0 {
        Seq::empty()
    } else if items[count - 1] is Number {
        numbers_of(items, (count - 1) as nat).push(items[count - 1]->Number_0)
    } else {
        numbers_of(items, (count - 1) as nat)
    }
}

/// `sum`: the numbers to add up, in order: those of the list, whatever else it holds.
pub open spec fn spec_sum(args: Seq<SpecValue>) -> Result<Seq<Num>, Seq<char>> {
    if args.len() == 1 && args[0] is List {
        Ok(numbers_of(args[0]->List_0, args[0]->List_0.len()))
    } else {
        Err("sum: expected a list"@)
    }
}

/// Whether a value can be called.
pub fn callable(value: &Value) -> (r: bool)
    ensures
        r == is_callable(value@),
{
    match value {
        Value::Func { .. } => true,
        Value::BuiltinFunc { .. } => true,
        _ => false,
    }
}

fn each(args: &Vec<Value>, message: &str) -> (r: Result<(Value, Vec<Value>), String>)
    ensures
        match r {
            Ok(p) => spec_each(values_view(args@), message@) == Ok::<
                (SpecValue, Seq<SpecValue>),
                Seq<char>,
            >((p.0@, values_view(p.1@))),
            Err(e) => spec_each(values_view(args@), message@) == Err::<
                (SpecValue, Seq<SpecValue>),
                Seq<char>,
            >(e@),
        },
{
    if args.len() == 2 {
        if callable(&args[0]) {
            if let Value::List(items) = &args[1] {
                return Ok((args[0].clone(), clone_values(items)));
            }
        }
        if callable(&args[1]) {
            if let Value::List(items) = &args[0] {
                return Ok((args[1].clone(), clone_values(items)));
            }
        }
    }
    Err(String::from_str(message))
}

/// `map` applies a function to every item of a list. Applying is the evaluator's work:
/// this tells the function from the list, which may come in either order.
pub fn map(args: Vec<Value>) -> (r: Result<(Value, Vec<Value>), String>)
    ensures
        match r {
            Ok(p) => spec_map(values_view(args@)) == Ok::<(SpecValue, Seq<SpecValue>), Seq<char>>(
                (p.0@, values_view(p.1@)),
            ),
            Err(e) => spec_map(values_view(args@)) == Err::<(SpecValue, Seq<SpecValue>), Seq<char>>(e@),
        },
{
    each(&args, "map: expected a function and a list")
}

/// `filter` keeps the items of a list that a function maps to `true`. Applying is the
/// evaluator's work: this tells the function from the list, which may come in either order.
pub fn filter(args: Vec<Value>) -> (r: Result<(Value, Vec<Value>), String>)
    ensures
        match r {
            Ok(p) => spec_filter(values_view(args@)) == Ok::<(SpecValue, Seq<SpecValue>), Seq<char>>(
                (p.0@, values_view(p.1@)),
            ),
            Err(e) => spec_filter(values_view(args@)) == Err::<(SpecValue, Seq<SpecValue>), Seq<char>>(
                e@,
            ),
        },
{
    each(&args, "filter: expected a function and a list")
}

/// `append`: two lists joined, or a list with one more item at its end.
pub fn append(args: Vec<Value>) -> (r: Result<Value, String>)
    ensures
        result_view(r) == spec_append(values_view(args@)),
{
    if args.len() == 2 {
        if let Value::List(list1) = &args[0] {
            let mut new_list = clone_values(list1);
            let ghost first = values_view(new_list@);
            if let Value::List(list2) = &args[1] {
                let mut i: usize = 0;
                while i < list2.len()
                    invariant
                        i <= list2.len(),
                        values_view(new_list@) == first + values_view(list2@).take(i as int),
                    decreases list2.len() - i,
                {
                    let ghost before = values_view(new_list@);
                    let item = list2[i].clone();
                    new_list.push(item);
                    assert(values_view(new_list@) =~= before.push(values_view(list2@)[i as int]));
                    assert(values_view(list2@).take(i + 1) =~= values_view(list2@).take(i as int).push(
                        values_view(list2@)[i as int],
                    ));
                    assert(first + values_view(list2@).take(i + 1) =~= (first + values_view(list2@).take(
                        i as int,
                    )).push(values_view(list2@)[i as int]));
                    i += 1;
                }
                assert(values_view(list2@).take(list2.len() as int) =~= values_view(list2@));
                return Ok(Value::List(new_list));
            } else {
                let item = args[1].clone();
                new_list.push(item);
                assert(values_view(new_list@) =~= first.push(values_view(args@)[1]));
                return Ok(Value::List(new_list));
            }
        }
    }
    Err(String::from_str("append: expected two lists"))
}

fn nth(args: &Vec<Value>, n: usize, none: &str, wrong: &str) -> (r: Result<Value, String>)
    ensures
        result_view(r) == spec_nth(values_view(args@), n as int, none@, wrong@),
{
    if args.len() == 1 {
        assert(values_view(args@)[0] == args@[0]@);
        if let Value::List(l) = &args[0] {
            assert(args@[0]@->List_0 == values_view(l@));
            if n < l.len() {
                assert(values_view(l@)[n as int] == l@[n as int]@);
                return Ok(l[n].clone());
            } else {
                return Err(String::from_str(none));
            }
        }
    }
    Err(String::from_str(wrong))
}

/// `first`: the first item of a list.
pub fn first(args: Vec<Value>) -> (r: Result<Value, String>)
    ensures
        result_view(r) == spec_first(values_view(args@)),
{
    nth(&args, 0, "first: list is empty", "first: expected a list")
}

/// `second`: the second item of a list.
pub fn second(args: Vec<Value>) -> (r: Result<Value, String>)
    ensures
        result_view(r) == spec_second(values_view(args@)),
{
    nth(&args, 1, "second: list is empty", "second: expected a list")
}

/// `third`: the third item of a list.
pub fn third(args: Vec<Value>) -> (r: Result<Value, String>)
    ensures
        result_view(r) == spec_third(values_view(args@)),
{
    nth(&args, 2, "third: list is empty", "third: expected a list")
}

/// `last`: the last item of a list.
pub fn last(args: Vec<Value>) -> (r: Result<Value, String>)
    ensures
        result_view(r) == spec_last(values_view(args@)),
{
    if args.len() == 1 {
        assert(values_view(args@)[0] == args@[0]@);
        if let Value::List(l) = &args[0] {
            assert(args@[0]@->List_0 == values_view(l@));
            if l.len() == 0 {
                return Err(String::from_str("last: list is empty"));
            }
            return nth(&args, l.len() - 1, "last: list is empty", "last: expected a list");
        }
    }
    Err(String::from_str("last: expected a list"))
}

/// A copy of the items of `values` from index `from` up to, not including, `to`.
pub fn clone_range(values: &Vec<Value>, from: usize, to: usize) -> (r: Vec<Value>)
    requires
        from <= to <= values.len(),
    ensures
        values_view(r@) == values_view(values@).subrange(from as int, to as int),
{
    let mut out: Vec<Value> = Vec::new();
    let mut i: usize = from;
    while i < to
        invariant
            from <= i <= to <= values.len(),
            out.len() == i - from,
            forall|j: int| 0 <= j < i - from ==> out@[j]@ == values@[from + j]@,
        decreases to - i,
    {
        let c = values[i].clone();
        out.push(c);
        i += 1;
    }
    assert(values_view(out@) =~= values_view(values@).subrange(from as int, to as int));
    out
}

/// `tail`: a list without its first item; of an empty list, the empty list.
pub fn tail(args: Vec<Value>) -> (r: Result<Value, String>)
    ensures
        result_view(r) == spec_tail(values_view(args@)),
{
    if args.len() == 1 {
        assert(values_view(args@)[0] == args@[0]@);
        if let Value::List(l) = &args[0] {
            assert(args@[0]@->List_0 == values_view(l@));
            if l.len() > 1 {
                return Ok(Value::List(clone_range(l, 1, l.len())));
            } else {
                let none: Vec<Value> = Vec::new();
                assert(values_view(none@) =~= Seq::empty());
                return Ok(Value::List(none));
            }
        }
    }
    Err(String::from_str("rest: expected a list"))
}

/// `sum` adds up the numbers of a list and passes over what else it holds. Adding needs
/// rounding, which the host does: this gives the numbers to add, in order.
pub fn sum(args: Vec<Value>) -> (r: Result<Vec<Num>, String>)
    ensures
        match r {
            Ok(numbers) => spec_sum(values_view(args@)) == Ok::<Seq<Num>, Seq<char>>(numbers@),
            Err(e) => spec_sum(values_view(args@)) == Err::<Seq<Num>, Seq<char>>(e@),
        },
{
    if args.len() == 1 {
        if let Value::List(l) = &args[0] {
            let mut numbers: Vec<Num> = Vec::new();
            let mut i: usize = 0;
            while i < l.len()
                invariant
                    i <= l.len(),
                    numbers@ == numbers_of(values_view(l@), i as nat),
                decreases l.len() - i,
            {
                if let Value::Number(n) = &l[i] {
                    numbers.push(*n);
                }
                i += 1;
            }
            return Ok(numbers);
        }
    }
    Err(String::from_str("sum: expected a list"))
}

} // verus!
