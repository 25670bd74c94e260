use crate::eval::value::{values_view, SpecValue, Value};
use vstd::prelude::*;

verus! {

/// `read_file`: the path of the file whose text is asked for.
pub open spec fn spec_read_file(args: Seq<SpecValue>) -> Result<Seq<char>, Seq<char>> {
    if args.len() == 1 && args[0] is String {
        Ok(args[0]->String_0)
    } else {
        Err("read_file: expected a string"@)
    }
}

/// `read_file` gives the text of a file. Reading is the host's work: this gives the path to read.
pub fn read_file(args: Vec<Value>) -> (r: Result<String, String>)
    ensures
        match r {
            Ok(path) => spec_read_file(values_view(args@)) == Ok::<Seq<char>, Seq<char>>(path@),
            Err(e) => spec_read_file(values_view(args@)) == Err::<Seq<char>, Seq<char>>(e@),
        },
{
    if args.len() == 1 {
        if let Value::String(path) = &args[0] {
            return Ok(path.clone());
        }
    }
    Err(String::from_str("read_file: expected a string"))
}

} // verus!
