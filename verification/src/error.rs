//! What is wrong with the parameters of an indicator that cannot be built.
use vstd::prelude::*;
use vstd::std_specs::convert::FromSpecImpl;
use vstd::string::StringExecFns;

verus! {

/// The bounds that a parameter has to stay within.
#[derive(Debug, Clone)]
pub enum Range<T> {
    LowerBounded { min: T },
    UpperBounded { max: T },
    BothBounded { min: T, max: T },
}

/// A parameter by name, with the value it was given.
#[derive(Debug, Clone)]
pub struct Parameter<T> {
    pub name: &'static str,
    pub value: T,
}

impl<T> Parameter<T> {
    pub fn new(name: &'static str, value: T) -> (parameter: Self)
        ensures
            parameter == (Parameter { name, value }),
    {
        Self { name, value }
    }
}

/// A parameter outside its bounds.
#[derive(Debug, Clone)]
pub struct InvalidRangeError<T> {
    pub param: Parameter<T>,
    pub range: Range<T>,
}

impl<T> InvalidRangeError<T> {
    pub fn new(name: &'static str, value: T, range: Range<T>) -> (error: Self)
        ensures
            error == (InvalidRangeError { param: Parameter { name, value }, range }),
    {
        Self { param: Parameter { name, value }, range }
    }
}

/// Two parameters that are not in the relation `operator` to each other.
#[derive(Debug, Clone)]
pub struct InvalidBinaryRelationError<T> {
    pub operator: &'static str,
    pub lhs: Parameter<T>,
    pub rhs: Parameter<T>,
}

/// Why an indicator was not built. `F` is the type of its real-valued
/// parameters.
#[derive(Debug, Clone)]
pub enum Error<F> {
    InvalidUintRange(InvalidRangeError<usize>),
    InvalidFloatRange(InvalidRangeError<F>),
    InvalidRelation(InvalidBinaryRelationError<usize>),
}

impl<F> From<InvalidRangeError<usize>> for Error<F> {
    fn from(e: InvalidRangeError<usize>) -> (error: Self) {
        Self::InvalidUintRange(e)
    }
}

impl<F> FromSpecImpl<InvalidRangeError<usize>> for Error<F> {
    open spec fn obeys_from_spec() -> bool {
        true
    }

    open spec fn from_spec(e: InvalidRangeError<usize>) -> Self {
        Self::InvalidUintRange(e)
    }
}

impl<F> From<InvalidBinaryRelationError<usize>> for Error<F> {
    fn from(e: InvalidBinaryRelationError<usize>) -> (error: Self) {
        Self::InvalidRelation(e)
    }
}

impl<F> FromSpecImpl<InvalidBinaryRelationError<usize>> for Error<F> {
    open spec fn obeys_from_spec() -> bool {
        true
    }

    open spec fn from_spec(e: InvalidBinaryRelationError<usize>) -> Self {
        Self::InvalidRelation(e)
    }
}

/// The bounds of `range` as text.
pub open spec fn range_text(range: Range<&str>) -> Range<Seq<char>> {
    match range {
        Range::LowerBounded { min } => Range::LowerBounded { min: min@ },
        Range::UpperBounded { max } => Range::UpperBounded { max: max@ },
        Range::BothBounded { min, max } => Range::BothBounded { min: min@, max: max@ },
    }
}

/// The sentence that says in which bounds the parameter `name` was expected
/// and which value it had.
pub open spec fn range_message_spec(name: Seq<char>, value: Seq<char>, range: Range<Seq<char>>) -> Seq<
    char,
> {
    match range {
        Range::LowerBounded { min } => "expected to be "@ + min + " <= "@ + name
            + ", but actually "@ + value + "."@,
        Range::UpperBounded { max } => "expected to be "@ + name + " <= "@ + max
            + ", but actually "@ + value + "."@,
        Range::BothBounded { min, max } => "expected to be "@ + min + " <= "@ + name + " <= "@
            + max + ", but actually "@ + value + "."@,
    }
}

/// The message of an `InvalidRangeError` whose value and bounds are written
/// as `value` and `range`.
pub fn range_message(name: &str, value: &str, range: &Range<&str>) -> (text: String)
    ensures
        text@ == range_message_spec(name@, value@, range_text(*range)),
{
    let mut text = String::from_str("expected to be ");
    match range {
        Range::LowerBounded { min } => {
            text.append(min);
            text.append(" <= ");
            text.append(name);
        },
        Range::UpperBounded { max } => {
            text.append(name);
            text.append(" <= ");
            text.append(max);
        },
        Range::BothBounded { min, max } => {
            text.append(min);
            text.append(" <= ");
            text.append(name);
            text.append(" <= ");
            text.append(max);
        },
    }
    text.append(", but actually ");
    text.append(value);
    text.append(".");
    text
}

/// The sentence that says which relation was expected between two parameters
/// and which values they had.
pub open spec fn relation_message_spec(
    operator: Seq<char>,
    lname: Seq<char>,
    lvalue: Seq<char>,
    rname: Seq<char>,
    rvalue: Seq<char>,
) -> Seq<char> {
    "expected to be "@ + lname + " "@ + operator + " "@ + rname + ", found "@ + lvalue + " "@
        + operator + " "@ + rvalue + "."@
}

/// The message of an `InvalidBinaryRelationError` whose values are written as
/// `lvalue` and `rvalue`.
pub fn relation_message(operator: &str, lname: &str, lvalue: &str, rname: &str, rvalue: &str) -> (text:
    String)
    ensures
        text@ == relation_message_spec(operator@, lname@, lvalue@, rname@, rvalue@),
{
    let mut text = String::from_str("expected to be ");
    text.append(lname);
    text.append(" ");
    text.append(operator);
    text.append(" ");
    text.append(rname);
    text.append(", found ");
    text.append(lvalue);
    text.append(" ");
    text.append(operator);
    text.append(" ");
    text.append(rvalue);
    text.append(".");
    text
}

impl<F> Error<F> {
    /// What kind of error this is, as the message begins.
    pub open spec fn heading_spec(&self) -> Seq<char> {
        match self {
            Error::InvalidUintRange(_) => "invalid uint range: "@,
            Error::InvalidFloatRange(_) => "invalid float range: "@,
            Error::InvalidRelation(_) => "invalid relation: "@,
        }
    }

    /// The message of this error, where `detail` is the message of the error
    /// it holds.
    pub fn message(&self, detail: &str) -> (text: String)
        ensures
            text@ == self.heading_spec() + detail@,
    {
        let mut text = match self {
            Error::InvalidUintRange(_) => String::from_str("invalid uint range: "),
            Error::InvalidFloatRange(_) => String::from_str("invalid float range: "),
            Error::InvalidRelation(_) => String::from_str("invalid relation: "),
        };
        text.append(detail);
        text
    }
}

} // verus!
