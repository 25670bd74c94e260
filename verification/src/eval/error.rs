use vstd::prelude::*;

verus! {

/// Why an evaluation failed.
#[derive(Debug, PartialEq)]
pub enum EvalError {
    /// A name that no frame binds.
    UndefinedVariable(String),
    /// An operand of the wrong kind; the text says where.
    TypeMismatch(String),
    /// A call with more arguments than the function takes: what it takes, and what it got.
    ArityMismatch(usize, usize),
    /// An index beyond the end of a list or a text.
    IndexOutOfBounds(usize),
    DivisionByZero,
    /// A `match` none of whose cases matched.
    PatternMatchExhausted,
    /// A field that a record does not have.
    FieldNotFound(String),
    /// A failure of the host, or of a module that was imported.
    IOError(String),
}

/// The mathematical value of an [`EvalError`].
pub enum SpecEvalError {
    UndefinedVariable(Seq<char>),
    TypeMismatch(Seq<char>),
    ArityMismatch(usize, usize),
    IndexOutOfBounds(usize),
    DivisionByZero,
    PatternMatchExhausted,
    FieldNotFound(Seq<char>),
    IOError(Seq<char>),
}

/// The digit that stands for `d`, which is below ten.
pub open spec fn digit_char(d: nat) -> char {
    if d == 0 {
        '0'
    } else if d == 1 {
        '1'
    } else if d == 2 {
        '2'
    } else if d == 3 {
        '3'
    } else if d == 4 {
        '4'
    } else if d == 5 {
        '5'
    } else if d == 6 {
        '6'
    } else if d == 7 {
        '7'
    } else if d == 8 {
        '8'
    } else {
        '9'
    }
}

/// `n` written in decimal, without leading zeros.
pub open spec fn spec_decimal(n: nat) -> Seq<char>
    decreases n,
{
    if n < 10 {
        seq![digit_char(n)]
    } else {
        spec_decimal(n / 10).push(digit_char(n % 10))
    }
}

/// The digit that stands for `d`, which is below ten.
fn digit_of(d: usize) -> (c: char)
    requires
        d < 10,
    ensures
        c == digit_char(d as nat),
{
    if d == 0 {
        '0'
    } else if d == 1 {
        '1'
    } else if d == 2 {
        '2'
    } else if d == 3 {
        '3'
    } else if d == 4 {
        '4'
    } else if d == 5 {
        '5'
    } else if d == 6 {
        '6'
    } else if d == 7 {
        '7'
    } else if d == 8 {
        '8'
    } else {
        '9'
    }
}

/// `n` written in decimal, without leading zeros.
pub fn decimal(n: usize) -> (s: String)
    ensures
        s@ == spec_decimal(n as nat),
    decreases n,
{
    if n < 10 {
        let mut s = String::new();
        s.push(digit_of(n));
        assert(s@ =~= seq![digit_char(n as nat)]);
        s
    } else {
        let mut s = decimal(n / 10);
        s.push(digit_of(n % 10));
        s
    }
}

/// What a failure says of itself.
pub open spec fn spec_message(e: SpecEvalError) -> Seq<char> {
    match e {
        SpecEvalError::UndefinedVariable(name) => "Undefined variable: "@ + name,
        SpecEvalError::TypeMismatch(context) => "Type mismatch: "@ + context,
        SpecEvalError::ArityMismatch(expected, got) => "Too many arguments: expected "@ + spec_decimal(
            expected as nat,
        ) + ", but got "@ + spec_decimal(got as nat),
        SpecEvalError::IndexOutOfBounds(index) => "Index out of bounds: "@ + spec_decimal(index as nat),
        SpecEvalError::DivisionByZero => "Division by zero"@,
        SpecEvalError::PatternMatchExhausted => "No matching case found"@,
        SpecEvalError::FieldNotFound(name) => "Field not found: "@ + name,
        SpecEvalError::IOError(message) => message,
    }
}

impl EvalError {
    pub open spec fn view(&self) -> SpecEvalError {
        match self {
            EvalError::UndefinedVariable(s) => SpecEvalError::UndefinedVariable(s@),
            EvalError::TypeMismatch(s) => SpecEvalError::TypeMismatch(s@),
            EvalError::ArityMismatch(expected, got) => SpecEvalError::ArityMismatch(*expected, *got),
            EvalError::IndexOutOfBounds(index) => SpecEvalError::IndexOutOfBounds(*index),
            EvalError::DivisionByZero => SpecEvalError::DivisionByZero,
            EvalError::PatternMatchExhausted => SpecEvalError::PatternMatchExhausted,
            EvalError::FieldNotFound(s) => SpecEvalError::FieldNotFound(s@),
            EvalError::IOError(s) => SpecEvalError::IOError(s@),
        }
    }

    /// What this failure says of itself, for a reader.
    pub fn message(&self) -> (s: String)
        ensures
            s@ == spec_message(self@),
    {
        match self {
            EvalError::UndefinedVariable(name) => {
                let mut s = String::from_str("Undefined variable: ");
                s.append(name.as_str());
                s
            },
            EvalError::TypeMismatch(context) => {
                let mut s = String::from_str("Type mismatch: ");
                s.append(context.as_str());
                s
            },
            EvalError::ArityMismatch(expected, got) => {
                let mut s = String::from_str("Too many arguments: expected ");
                s.append(decimal(*expected).as_str());
                s.append(", but got ");
                s.append(decimal(*got).as_str());
                s
            },
            EvalError::IndexOutOfBounds(index) => {
                let mut s = String::from_str("Index out of bounds: ");
                s.append(decimal(*index).as_str());
                s
            },
            EvalError::DivisionByZero => String::from_str("Division by zero"),
            EvalError::PatternMatchExhausted => String::from_str("No matching case found"),
            EvalError::FieldNotFound(name) => {
                let mut s = String::from_str("Field not found: ");
                s.append(name.as_str());
                s
            },
            EvalError::IOError(message) => message.clone(),
        }
    }
}

impl Clone for EvalError {
    fn clone(&self) -> (r: Self)
        ensures
            r@ == self@,
    {
        match self {
            EvalError::UndefinedVariable(s) => EvalError::UndefinedVariable(s.clone()),
            EvalError::TypeMismatch(s) => EvalError::TypeMismatch(s.clone()),
            EvalError::ArityMismatch(expected, got) => EvalError::ArityMismatch(*expected, *got),
            EvalError::IndexOutOfBounds(index) => EvalError::IndexOutOfBounds(*index),
            EvalError::DivisionByZero => EvalError::DivisionByZero,
            EvalError::PatternMatchExhausted => EvalError::PatternMatchExhausted,
            EvalError::FieldNotFound(s) => EvalError::FieldNotFound(s.clone()),
            EvalError::IOError(s) => EvalError::IOError(s.clone()),
        }
    }
}

} // verus!
