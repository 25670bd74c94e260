use vstd::prelude::*;

verus! {

/// A keyword of the language, with a line on what it is for.
#[derive(Debug, PartialEq)]
pub struct Keyword {
    pub name: String,
    pub description: String,
}

impl Keyword {
    pub open spec fn view(&self) -> (Seq<char>, Seq<char>)
    {
        (self.name@, self.description@)
    }
}

/// The keywords that an editor suggests, each with its description.
pub open spec fn spec_keywords() -> Seq<(Seq<char>, Seq<char>)> {
    seq![
        ("let"@, "Declares a variable with a specified name and value."@),
        ("fn"@, "Defines a function with a specified name and parameters."@),
        ("if"@, "Conditional statement that executes code based on a condition."@),
        ("then"@, "Code block executed if the 'if' condition is true."@),
        ("else"@, "Alternative code block executed if the 'if' condition is false."@),
        ("in"@, "Checks if a value is present in a collection or range."@),
        ("is"@, "Checks if a value matches a specific type or condition."@),
        ("match"@, "Pattern matching construct for handling different cases."@),
        ("and"@, "Logical operator that returns true if both operands are true."@),
        ("or"@, "Logical operator that returns true if at least one operand is true."@),
        ("not"@, "Logical operator that negates the truth value of an operand."@),
    ]
}

/// The values of a sequence of keywords, in order.
pub open spec fn keywords_view(keywords: Seq<Keyword>) -> Seq<(Seq<char>, Seq<char>)> {
    Seq::new(keywords.len(), |i: int| keywords[i]@)
}

fn keyword(name: &str, description: &str) -> (k: Keyword)
    ensures
        k@ == (name@, description@),
{
    Keyword { name: String::from_str(name), description: String::from_str(description) }
}

/// The keywords that an editor suggests.
pub fn keywords() -> (list: Vec<Keyword>)
    ensures
        keywords_view(list@) == spec_keywords(),
{
    let mut list: Vec<Keyword> = Vec::new();
    list.push(keyword("let", "Declares a variable with a specified name and value."));
    list.push(keyword("fn", "Defines a function with a specified name and parameters."));
    list.push(keyword("if", "Conditional statement that executes code based on a condition."));
    list.push(keyword("then", "Code block executed if the 'if' condition is true."));
    list.push(keyword("else", "Alternative code block executed if the 'if' condition is false."));
    list.push(keyword("in", "Checks if a value is present in a collection or range."));
    list.push(keyword("is", "Checks if a value matches a specific type or condition."));
    list.push(keyword("match", "Pattern matching construct for handling different cases."));
    list.push(keyword("and", "Logical operator that returns true if both operands are true."));
    list.push(keyword("or", "Logical operator that returns true if at least one operand is true."));
    list.push(keyword("not", "Logical operator that negates the truth value of an operand."));
    assert(keywords_view(list@) =~= spec_keywords());
    list
}

} // verus!
