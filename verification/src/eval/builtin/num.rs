use crate::eval::value::{values_view, SpecValue, Value};
use crate::number::Num;
use vstd::prelude::*;

verus! {

/// `str`: the number whose decimal text is asked for.
pub open spec fn spec_str(args: Seq<SpecValue>) -> Result<Num, Seq<char>> {
    if args.len() == 1 && args[0] is Number {
        Ok(args[0]->Number_0)
    } else {
        Err("str: expected a number"@)
    }
}

/// `str` turns a number into its decimal text. Writing the text needs rounding, which the
/// host does: this gives the number to write.
pub fn str(args: Vec<Value>) -> (r: Result<Num, String>)
    ensures
        match r {
            Ok(n) => spec_str(values_view(args@)) == Ok::<Num, Seq<char>>(n),
            Err(e) => spec_str(values_view(args@)) == Err::<Num, Seq<char>>(e@),
        },
{
    if args.len() == 1 {
        if let Value::Number(n) = &args[0] {
            return Ok(*n);
        }
    }
    Err(String::from_str("str: expected a number"))
}

} // verus!
