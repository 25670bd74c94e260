use crate::eval::builtin::etc::result_view;
use crate::eval::value::{values_view, SpecValue, Value};
use crate::text::{chars_of, string_of};
use vstd::prelude::*;

verus! {

/// `int`: the text whose number is asked for.
pub open spec fn spec_int(args: Seq<SpecValue>) -> Result<Seq<char>, Seq<char>> {
    if args.len() == 1 && args[0] is String {
        Ok(args[0]->String_0)
    } else {
        Err("int: expected a number"@)
    }
}

/// `int` reads a number from a text. Reading needs rounding, which the host does:
/// this gives the text to read.
pub fn to_number(args: Vec<Value>) -> (r: Result<String, String>)
    ensures
        match r {
            Ok(text) => spec_int(values_view(args@)) == Ok::<Seq<char>, Seq<char>>(text@),
            Err(e) => spec_int(values_view(args@)) == Err::<Seq<char>, Seq<char>>(e@),
        },
{
    if args.len() == 1 {
        if let Value::String(s) = &args[0] {
            return Ok(s.clone());
        }
    }
    Err(String::from_str("int: expected a number"))
}

/// Whether `delim` stands in `s` at index `i`.
pub open spec fn found_at(s: Seq<char>, delim: Seq<char>, i: int) -> bool {
    0 <= i && i + delim.len() <= s.len() && s.subrange(i, i + delim.len()) == delim
}

/// The pieces of `s` between the places where `delim`, which is not empty, stands, from left
/// to right and without overlap. `start` is where the piece at hand began, `i` where the
/// search goes on.
pub open spec fn split_from(s: Seq<char>, delim: Seq<char>, start: int, i: int) -> Seq<Seq<char>>
    decreases s.len() - i,
{
    if delim.len() == 0 || i < 0 || i + delim.len() > s.len() {
        seq![s.subrange(start, s.len() as int)]
    } else if found_at(s, delim, i) {
        seq![s.subrange(start, i)] + split_from(s, delim, i + delim.len(), i + delim.len())
    } else {
        split_from(s, delim, start, i + 1)
    }
}

/// The pieces of `s` between the places where `delim` stands. An empty `delim` stands
/// before and after every character: the pieces are then the characters, with an empty
/// piece before and after them.
pub open spec fn split_text(s: Seq<char>, delim: Seq<char>) -> Seq<Seq<char>> {
    if delim.len() == 0 {
        seq![Seq::<char>::empty()] + Seq::new(s.len(), |i: int| seq![s[i]]) + seq![Seq::<char>::empty()]
    } else {
        split_from(s, delim, 0, 0)
    }
}

/// Texts as values of the language.
pub open spec fn texts_as_values(texts: Seq<Seq<char>>) -> Seq<SpecValue> {
    Seq::new(texts.len(), |i: int| SpecValue::String(texts[i]))
}

/// `split`: the pieces of a text between the places where a delimiter stands.
/// The delimiter comes first.
pub open spec fn spec_split(args: Seq<SpecValue>) -> Result<SpecValue, Seq<char>> {
    if args.len() == 2 && args[0] is String && args[1] is String {
        Ok(SpecValue::List(texts_as_values(split_text(args[1]->String_0, args[0]->String_0))))
    } else {
        Err("split: expected two strings"@)
    }
}

/// Whether `delim` stands in `s` at index `i`.
fn is_found_at(s: &Vec<char>, delim: &Vec<char>, i: usize) -> (r: bool)
    requires
        i + delim.len() <= s.len(),
    ensures
        r == found_at(s@, delim@, i as int),
{
    let mut j: usize = 0;
    while j < delim.len()
        invariant
            j <= delim.len(),
            i + delim.len() <= s.len(),
            forall|k: int| 0 <= k < j ==> s@[i + k] == delim@[k],
        decreases delim.len() - j,
    {
        if s[i + j] != delim[j] {
            assert(s@.subrange(i as int, i + delim.len())[j as int] != delim@[j as int]);
            return false;
        }
        j += 1;
    }
    assert(s@.subrange(i as int, i + delim.len()) =~= delim@);
    true
}

/// The pieces of `s` between the places where `delim` stands, as values.
fn split_chars(s: &Vec<char>, delim: &Vec<char>) -> (r: Vec<Value>)
    ensures
        values_view(r@) == texts_as_values(split_text(s@, delim@)),
{
    let mut pieces: Vec<Value> = Vec::new();
    if delim.len() == 0 {
        pieces.push(Value::String(String::new()));
        let mut i: usize = 0;
        while i < s.len()
            invariant
                i <= s.len(),
                pieces.len() == i + 1,
                pieces@[0]@ == SpecValue::String(Seq::<char>::empty()),
                forall|j: int| 0 <= j < i ==> pieces@[j + 1]@ == SpecValue::String(seq![s@[j]]),
            decreases s.len() - i,
        {
            let piece = string_of(s, i, i + 1);
            assert(piece@ =~= seq![s@[i as int]]);
            pieces.push(Value::String(piece));
            i += 1;
        }
        pieces.push(Value::String(String::new()));
        assert(values_view(pieces@) =~= texts_as_values(split_text(s@, delim@)));
        return pieces;
    }
    let mut start: usize = 0;
    let mut i: usize = 0;
    while delim.len() <= s.len() - i
        invariant
            delim.len() > 0,
            start <= i <= s.len(),
            values_view(pieces@) + texts_as_values(split_from(s@, delim@, start as int, i as int))
                == texts_as_values(split_text(s@, delim@)),
        decreases s.len() - i,
    {
        let ghost done = values_view(pieces@);
        let ghost rest = split_from(s@, delim@, start as int, i as int);
        if is_found_at(s, delim, i) {
            let piece = string_of(s, start, i);
            pieces.push(Value::String(piece));
            i = i + delim.len();
            start = i;
            proof {
                let next = split_from(s@, delim@, start as int, i as int);
                assert(rest =~= seq![piece@] + next);
                assert(values_view(pieces@) =~= done.push(SpecValue::String(piece@)));
                assert(texts_as_values(rest) =~= seq![SpecValue::String(piece@)] + texts_as_values(next));
                assert(done.push(SpecValue::String(piece@)) + texts_as_values(next) =~= done + (seq![
                    SpecValue::String(piece@),
                ] + texts_as_values(next)));
            }
        } else {
            i = i + 1;
        }
    }
    let ghost done = values_view(pieces@);
    let piece = string_of(s, start, s.len());
    pieces.push(Value::String(piece));
    proof {
        let rest = split_from(s@, delim@, start as int, i as int);
        assert(rest =~= seq![piece@]);
        assert(values_view(pieces@) =~= done.push(SpecValue::String(piece@)));
        assert(texts_as_values(rest) =~= seq![SpecValue::String(piece@)]);
        assert(done.push(SpecValue::String(piece@)) =~= done + seq![SpecValue::String(piece@)]);
    }
    pieces
}

/// `split`: the pieces of a text between the places where a delimiter stands.
/// The delimiter comes first.
pub fn split(args: Vec<Value>) -> (r: Result<Value, String>)
    ensures
        result_view(r) == spec_split(values_view(args@)),
{
    if args.len() == 2 {
        assert(values_view(args@)[0] == args@[0]@);
        assert(values_view(args@)[1] == args@[1]@);
        if let Value::String(delim) = &args[0] {
            if let Value::String(s) = &args[1] {
                let pieces = split_chars(&chars_of(s.as_str()), &chars_of(delim.as_str()));
                return Ok(Value::List(pieces));
            }
        }
    }
    Err(String::from_str("split: expected two strings"))
}

} // verus!
