use vstd::prelude::*;

verus! {

/// An entry of the table of builtin functions: a name and how many arguments it takes.
#[derive(Debug, PartialEq)]
pub struct BuiltinFunc {
    pub name: String,
    pub args_len: usize,
}

impl BuiltinFunc {
    pub open spec fn view(&self) -> (Seq<char>, nat) {
        (self.name@, self.args_len as nat)
    }
}

/// The table of builtin functions, as names and numbers of arguments.
pub open spec fn spec_builtin_functions() -> Seq<(Seq<char>, nat)> {
    seq![
        ("print"@, 1nat),
        ("println"@, 1nat),
        ("read_file"@, 1nat),
        ("map"@, 2nat),
        ("filter"@, 2nat),
        ("append"@, 2nat),
        ("first"@, 1nat),
        ("second"@, 1nat),
        ("third"@, 1nat),
        ("tail"@, 1nat),
        ("last"@, 1nat),
        ("sum"@, 1nat),
        ("int"@, 1nat),
        ("split"@, 2nat),
        ("str"@, 1nat),
        ("len"@, 1nat),
        ("empty"@, 1nat),
        ("not_empty"@, 1nat),
    ]
}

/// The values of a sequence of table entries, in order.
pub open spec fn table_view(table: Seq<BuiltinFunc>) -> Seq<(Seq<char>, nat)> {
    Seq::new(table.len(), |i: int| table[i]@)
}

fn entry(name: &str, args_len: usize) -> (r: BuiltinFunc)
    ensures
        r@ == (name@, args_len as nat),
{
    BuiltinFunc { name: String::from_str(name), args_len }
}

/// The table of builtin functions.
pub fn builtin_functions() -> (table: Vec<BuiltinFunc>)
    ensures
        table_view(table@) == spec_builtin_functions(),
{
    let mut table: Vec<BuiltinFunc> = Vec::new();
    table.push(entry("print", 1));
    table.push(entry("println", 1));
    table.push(entry("read_file", 1));
    table.push(entry("map", 2));
    table.push(entry("filter", 2));
    table.push(entry("append", 2));
    table.push(entry("first", 1));
    table.push(entry("second", 1));
    table.push(entry("third", 1));
    table.push(entry("tail", 1));
    table.push(entry("last", 1));
    table.push(entry("sum", 1));
    table.push(entry("int", 1));
    table.push(entry("split", 2));
    table.push(entry("str", 1));
    table.push(entry("len", 1));
    table.push(entry("empty", 1));
    table.push(entry("not_empty", 1));
    assert(table_view(table@) =~= spec_builtin_functions());
    table
}

} // verus!
