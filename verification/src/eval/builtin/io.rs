use crate::eval::value::{bindings_view, values_view, SpecValue, Value};
use crate::number::Num;
use vstd::prelude::*;

verus! {

/// A piece of text to print: text as it is, or a number for the host to write in decimal.
#[derive(Debug, PartialEq)]
pub enum TextPart {
    Text(String),
    Number(Num),
}

/// The mathematical value of a [`TextPart`].
pub enum SpecTextPart {
    Text(Seq<char>),
    Number(Num),
}

impl TextPart {
    pub open spec fn view(&self) -> SpecTextPart {
        match self {
            TextPart::Text(s) => SpecTextPart::Text(s@),
            TextPart::Number(n) => SpecTextPart::Number(*n),
        }
    }
}

impl Clone for TextPart {
    fn clone(&self) -> (r: Self)
        ensures
            r@ == self@,
    {
        match self {
            TextPart::Text(s) => TextPart::Text(s.clone()),
            TextPart::Number(n) => TextPart::Number(*n),
        }
    }
}

/// The values of a sequence of pieces, in order.
pub open spec fn parts_view(parts: Seq<TextPart>) -> Seq<SpecTextPart> {
    Seq::new(parts.len(), |i: int| parts[i]@)
}

/// The names from index `from` on, with `, ` between them.
pub open spec fn joined_names(names: Seq<Seq<char>>, from: int) -> Seq<char>
    decreases names.len() - from,
{
    if from < 0 || from >= names.len() {
        Seq::empty()
    } else if from + 1 == names.len() {
        names[from]
    } else {
        names[from] + ", "@ + joined_names(names, from + 1)
    }
}

/// How a value is printed. A number is left for the host to write; a text and a boolean
/// are printed as they are; a list is its items between `[` and `]`, a record its fields
/// as `name: value` between `{` and `}`, both with `, ` in between; a function is named.
pub open spec fn spec_format_value(v: SpecValue) -> Seq<SpecTextPart>
    decreases v, 0nat,
{
    match v {
        SpecValue::Number(n) => seq![SpecTextPart::Number(n)],
        SpecValue::String(s) => seq![SpecTextPart::Text(s)],
        SpecValue::Boolean(b) => seq![SpecTextPart::Text(if b { "true"@ } else { "false"@ })],
        SpecValue::List(items) => seq![SpecTextPart::Text("["@)] + spec_format_items(items, 0) + seq![
            SpecTextPart::Text("]"@),
        ],
        SpecValue::Record(fields) => seq![SpecTextPart::Text("{"@)] + spec_format_fields(fields, 0)
            + seq![SpecTextPart::Text("}"@)],
        SpecValue::Func { params, body, env } => seq![
            SpecTextPart::Text("Function: "@ + joined_names(params, 0)),
        ],
        SpecValue::BuiltinFunc { name, length, curried } => seq![
            SpecTextPart::Text("Builtin function: "@ + name),
        ],
    }
}

/// How the items of a list from index `from` on are printed.
pub open spec fn spec_format_items(items: Seq<SpecValue>, from: int) -> Seq<SpecTextPart>
    decreases items, items.len() - from,
{
    if from < 0 || from >= items.len() {
        Seq::empty()
    } else if from + 1 == items.len() {
        spec_format_value(items[from])
    } else {
        spec_format_value(items[from]) + seq![SpecTextPart::Text(", "@)] + spec_format_items(
            items,
            from + 1,
        )
    }
}

/// How the fields of a record from index `from` on are printed.
pub open spec fn spec_format_fields(fields: Seq<(Seq<char>, SpecValue)>, from: int) -> Seq<
    SpecTextPart,
>
    decreases fields, fields.len() - from,
{
    if from < 0 || from >= fields.len() {
        Seq::empty()
    } else if from + 1 == fields.len() {
        seq![SpecTextPart::Text(fields[from].0 + ": "@)] + spec_format_value(fields[from].1)
    } else {
        seq![SpecTextPart::Text(fields[from].0 + ": "@)] + spec_format_value(fields[from].1) + seq![
            SpecTextPart::Text(", "@),
        ] + spec_format_fields(fields, from + 1)
    }
}

/// `print` and `println`: the pieces to print for the one value given.
pub open spec fn spec_print(args: Seq<SpecValue>, message: Seq<char>) -> Result<
    Seq<SpecTextPart>,
    Seq<char>,
> {
    if args.len() == 1 {
        Ok(spec_format_value(args[0]))
    } else {
        Err(message)
    }
}

/// The names from index `from` on, with `, ` between them.
fn join_names(names: &Vec<String>, from: usize) -> (s: String)
    ensures
        s@ == joined_names(crate::ast::names_view(names@), from as int),
    decreases names.len() - from,
{
    if from >= names.len() {
        String::new()
    } else if from + 1 == names.len() {
        names[from].clone()
    } else {
        let mut s = names[from].clone();
        s.append(", ");
        s.append(join_names(names, from + 1).as_str());
        s
    }
}

fn push_text(out: &mut Vec<TextPart>, text: String)
    ensures
        parts_view(final(out)@) == parts_view(old(out)@).push(SpecTextPart::Text(text@)),
{
    out.push(TextPart::Text(text));
    assert(parts_view(out@) =~= parts_view(old(out)@).push(SpecTextPart::Text(text@)));
}

/// Adds to `out` how `value` is printed.
pub fn format_into(value: &Value, out: &mut Vec<TextPart>)
    ensures
        parts_view(final(out)@) == parts_view(old(out)@) + spec_format_value(value@),
    decreases value, 0nat,
{
    let ghost before = parts_view(out@);
    match value {
        Value::Number(n) => {
            out.push(TextPart::Number(*n));
            assert(parts_view(out@) =~= before + seq![SpecTextPart::Number(*n)]);
        },
        Value::String(s) => {
            push_text(out, s.clone());
            assert(parts_view(out@) =~= before + seq![SpecTextPart::Text(s@)]);
        },
        Value::Boolean(b) => {
            if *b {
                push_text(out, String::from_str("true"));
            } else {
                push_text(out, String::from_str("false"));
            }
            assert(parts_view(out@) =~= before + spec_format_value(value@));
        },
        Value::List(items) => {
            push_text(out, String::from_str("["));
            format_items_into(items, 0, out);
            push_text(out, String::from_str("]"));
            assert(parts_view(out@) =~= before + spec_format_value(value@));
        },
        Value::Record(fields) => {
            push_text(out, String::from_str("{"));
            format_fields_into(fields, 0, out);
            push_text(out, String::from_str("}"));
            assert(parts_view(out@) =~= before + spec_format_value(value@));
        },
        Value::Func { params, body, env } => {
            let mut s = String::from_str("Function: ");
            s.append(join_names(params, 0).as_str());
            push_text(out, s);
            assert(parts_view(out@) =~= before + spec_format_value(value@));
        },
        Value::BuiltinFunc { name, args } => {
            let mut s = String::from_str("Builtin function: ");
            s.append(name.as_str());
            push_text(out, s);
            assert(parts_view(out@) =~= before + spec_format_value(value@));
        },
    }
}

/// Adds to `out` how the items of a list from index `from` on are printed.
fn format_items_into(items: &Vec<Value>, from: usize, out: &mut Vec<TextPart>)
    ensures
        parts_view(final(out)@) == parts_view(old(out)@) + spec_format_items(
            values_view(items@),
            from as int,
        ),
    decreases items, items.len() - from,
{
    let ghost before = parts_view(out@);
    if from >= items.len() {
        assert(parts_view(out@) =~= before + Seq::empty());
    } else if from + 1 == items.len() {
        format_into(&items[from], out);
    } else {
        format_into(&items[from], out);
        push_text(out, String::from_str(", "));
        format_items_into(items, from + 1, out);
        assert(parts_view(out@) =~= before + spec_format_items(values_view(items@), from as int));
    }
}

/// Adds to `out` how the fields of a record from index `from` on are printed.
fn format_fields_into(fields: &Vec<(String, Value)>, from: usize, out: &mut Vec<TextPart>)
    ensures
        parts_view(final(out)@) == parts_view(old(out)@) + spec_format_fields(
            bindings_view(fields@),
            from as int,
        ),
    decreases fields, fields.len() - from,
{
    let ghost before = parts_view(out@);
    if from >= fields.len() {
        assert(parts_view(out@) =~= before + Seq::empty());
    } else {
        let mut label = fields[from].0.clone();
        label.append(": ");
        push_text(out, label);
        format_into(&fields[from].1, out);
        if from + 1 < fields.len() {
            push_text(out, String::from_str(", "));
            format_fields_into(fields, from + 1, out);
        }
        assert(parts_view(out@) =~= before + spec_format_fields(bindings_view(fields@), from as int));
    }
}

/// How a value is printed.
pub fn format_value(value: &Value) -> (parts: Vec<TextPart>)
    ensures
        parts_view(parts@) == spec_format_value(value@),
{
    let mut parts: Vec<TextPart> = Vec::new();
    assert(parts_view(parts@) =~= Seq::empty());
    format_into(value, &mut parts);
    assert(Seq::<SpecTextPart>::empty() + spec_format_value(value@) =~= spec_format_value(value@));
    parts
}

fn print_parts(args: &Vec<Value>, message: &str) -> (r: Result<Vec<TextPart>, String>)
    ensures
        match r {
            Ok(parts) => spec_print(values_view(args@), message@) == Ok::<
                Seq<SpecTextPart>,
                Seq<char>,
            >(parts_view(parts@)),
            Err(e) => spec_print(values_view(args@), message@) == Err::<
                Seq<SpecTextPart>,
                Seq<char>,
            >(e@),
        },
{
    if args.len() != 1 {
        return Err(String::from_str(message));
    }
    assert(values_view(args@)[0] == args@[0]@);
    Ok(format_value(&args[0]))
}

/// `print` writes a value to the output. Writing is the host's work: this gives the pieces
/// to write.
pub fn print(args: Vec<Value>) -> (r: Result<Vec<TextPart>, String>)
    ensures
        match r {
            Ok(parts) => spec_print(values_view(args@), "print: expected one argument"@) == Ok::<
                Seq<SpecTextPart>,
                Seq<char>,
            >(parts_view(parts@)),
            Err(e) => spec_print(values_view(args@), "print: expected one argument"@) == Err::<
                Seq<SpecTextPart>,
                Seq<char>,
            >(e@),
        },
{
    print_parts(&args, "print: expected one argument")
}

/// `println` writes a value to the output and ends the line. Writing is the host's work:
/// this gives the pieces to write before the end of the line.
pub fn println(args: Vec<Value>) -> (r: Result<Vec<TextPart>, String>)
    ensures
        match r {
            Ok(parts) => spec_print(values_view(args@), "println: expected one argument"@) == Ok::<
                Seq<SpecTextPart>,
                Seq<char>,
            >(parts_view(parts@)),
            Err(e) => spec_print(values_view(args@), "println: expected one argument"@) == Err::<
                Seq<SpecTextPart>,
                Seq<char>,
            >(e@),
        },
{
    print_parts(&args, "println: expected one argument")
}

} // verus!
