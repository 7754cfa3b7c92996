//! The closed operator set of the rule language, with one reducer for each
//! operator.
pub mod addition;
pub mod all;
pub mod and_op;
pub mod cat;
pub mod division;
pub mod double_negation;
pub mod equality;
pub mod filter;
pub mod greater_equal_than;
pub mod greater_than;
pub mod if_else;
pub mod is_in;
pub mod less_equal_than;
pub mod less_than;
pub mod log;
pub mod map;
pub mod max;
pub mod merge;
pub mod min;
pub mod missing;
pub mod missing_some;
pub mod modulo;
pub mod multiplication;
pub mod negation;
pub mod none_of;
pub mod not_equal;
pub mod or_op;
pub mod reduce;
pub mod some_of;
pub mod strict_equality;
pub mod strict_not_equal;
pub mod substr;
pub mod subtraction;
pub mod variable;

use crate::data::Data;
use crate::expression::{exprs_v, Expression};
use crate::json::{Json, JsonV};
use crate::sem::{arg_or_null, sem_op};
use crate::strings::eq_str;
use vstd::prelude::*;

verus! {

/// A rule operator. The set is closed; an object key outside it does not
/// parse.
#[derive(Debug, Clone, Copy, PartialEq, Eq, Structural)]
pub enum Operator {
    /// Tests abstract equality, with type coercion. Takes two arguments.
    Equal,
    /// Tests strict equality. Takes two arguments.
    StrictEqual,
    /// Tests not-equal, with type coercion.
    NotEqual,
    /// Tests strict not-equal.
    StrictNotEqual,
    /// Retrieves data from the data context by path, with an optional default.
    Variable,
    /// Logical negation ("not"). Takes just one argument.
    Negation,
    /// Double negation, or "cast to a boolean". Takes a single argument.
    DoubleNegation,
    /// If/then/else, and with more arguments an if/then elseif/then ... else
    /// chain. Arguments past the chosen branch are not evaluated.
    If,
    /// Returns the first truthy argument, or the last argument.
    Or,
    /// Returns the first falsy argument, or the last argument.
    And,
    /// Less than; with three arguments, an exclusive between test.
    LessThan,
    /// Less than or equal; with three arguments, an inclusive between test.
    LessEqualThan,
    /// Greater than. Takes two arguments.
    GreaterThan,
    /// Greater than or equal. Takes two arguments.
    GreaterEqualThan,
    /// The keys whose lookup misses the data, as an array.
    Missing,
    /// Takes a minimum count and an array of keys: an empty array where
    /// enough keys are present, the missing keys otherwise.
    MissingSome,
    /// The smallest of the arguments, read as numbers.
    Min,
    /// The largest of the arguments, read as numbers.
    Max,
    /// Sums all arguments; null where one has no numeric reading.
    Addition,
    /// Subtracts two arguments; with one, negates it.
    Subtraction,
    /// Multiplies the arguments; a single argument passes through unchanged.
    Multiplication,
    /// Divides two arguments; division by zero gives null.
    Division,
    /// The remainder of two arguments; a zero divisor gives null.
    Modulo,
    /// Substring or array membership, by the second argument's type.
    In,
    /// Concatenates all arguments as text.
    Cat,
    /// A portion of a string by start position and optional length.
    Substr,
    /// Passes its first argument through unchanged.
    Log,
    /// Merges arrays into one; other arguments join as single elements.
    Merge,
    /// Applies an expression to every element of an array.
    MapArray,
    /// Keeps the elements for which an expression is truthy.
    FilterArray,
    /// Folds an array to one value through an expression.
    Reduce,
    /// Whether an expression is truthy for every element; false on empty.
    /// Iterates the characters of a string argument.
    AllArray,
    /// Whether an expression is truthy for at least one element of an array.
    SomeArray,
    /// Whether an expression is truthy for no element of an array.
    NoneArray,
}

/// The operator a source key names, if any.
pub open spec fn op_of_str(s: Seq<char>) -> Option<Operator> {
    if s == ("==")@ {
        Some(Operator::Equal)
    } else if s == ("===")@ {
        Some(Operator::StrictEqual)
    } else if s == ("!=")@ {
        Some(Operator::NotEqual)
    } else if s == ("!==")@ {
        Some(Operator::StrictNotEqual)
    } else if s == ("var")@ {
        Some(Operator::Variable)
    } else if s == ("!")@ {
        Some(Operator::Negation)
    } else if s == ("!!")@ {
        Some(Operator::DoubleNegation)
    } else if s == ("if")@ {
        Some(Operator::If)
    } else if s == ("or")@ {
        Some(Operator::Or)
    } else if s == ("and")@ {
        Some(Operator::And)
    } else if s == ("<")@ {
        Some(Operator::LessThan)
    } else if s == ("<=")@ {
        Some(Operator::LessEqualThan)
    } else if s == (">")@ {
        Some(Operator::GreaterThan)
    } else if s == (">=")@ {
        Some(Operator::GreaterEqualThan)
    } else if s == ("missing")@ {
        Some(Operator::Missing)
    } else if s == ("missing_some")@ {
        Some(Operator::MissingSome)
    } else if s == ("min")@ {
        Some(Operator::Min)
    } else if s == ("max")@ {
        Some(Operator::Max)
    } else if s == ("+")@ {
        Some(Operator::Addition)
    } else if s == ("-")@ {
        Some(Operator::Subtraction)
    } else if s == ("*")@ {
        Some(Operator::Multiplication)
    } else if s == ("/")@ {
        Some(Operator::Division)
    } else if s == ("%")@ {
        Some(Operator::Modulo)
    } else if s == ("in")@ {
        Some(Operator::In)
    } else if s == ("cat")@ {
        Some(Operator::Cat)
    } else if s == ("substr")@ {
        Some(Operator::Substr)
    } else if s == ("log")@ {
        Some(Operator::Log)
    } else if s == ("merge")@ {
        Some(Operator::Merge)
    } else if s == ("map")@ {
        Some(Operator::MapArray)
    } else if s == ("filter")@ {
        Some(Operator::FilterArray)
    } else if s == ("reduce")@ {
        Some(Operator::Reduce)
    } else if s == ("all")@ {
        Some(Operator::AllArray)
    } else if s == ("some")@ {
        Some(Operator::SomeArray)
    } else if s == ("none")@ {
        Some(Operator::NoneArray)
    } else {
        None
    }
}

impl Operator {
    /// The operator matching the given string representation, or `None`
    /// where the string names no operator.
    pub fn from_str(s: &str) -> (r: Option<Operator>)
        ensures
            r == op_of_str(s@),
    {
        if eq_str(s, "==") {
            Some(Operator::Equal)
        } else if eq_str(s, "===") {
            Some(Operator::StrictEqual)
        } else if eq_str(s, "!=") {
            Some(Operator::NotEqual)
        } else if eq_str(s, "!==") {
            Some(Operator::StrictNotEqual)
        } else if eq_str(s, "var") {
            Some(Operator::Variable)
        } else if eq_str(s, "!") {
            Some(Operator::Negation)
        } else if eq_str(s, "!!") {
            Some(Operator::DoubleNegation)
        } else if eq_str(s, "if") {
            Some(Operator::If)
        } else if eq_str(s, "or") {
            Some(Operator::Or)
        } else if eq_str(s, "and") {
            Some(Operator::And)
        } else if eq_str(s, "<") {
            Some(Operator::LessThan)
        } else if eq_str(s, "<=") {
            Some(Operator::LessEqualThan)
        } else if eq_str(s, ">") {
            Some(Operator::GreaterThan)
        } else if eq_str(s, ">=") {
            Some(Operator::GreaterEqualThan)
        } else if eq_str(s, "missing") {
            Some(Operator::Missing)
        } else if eq_str(s, "missing_some") {
            Some(Operator::MissingSome)
        } else if eq_str(s, "min") {
            Some(Operator::Min)
        } else if eq_str(s, "max") {
            Some(Operator::Max)
        } else if eq_str(s, "+") {
            Some(Operator::Addition)
        } else if eq_str(s, "-") {
            Some(Operator::Subtraction)
        } else if eq_str(s, "*") {
            Some(Operator::Multiplication)
        } else if eq_str(s, "/") {
            Some(Operator::Division)
        } else if eq_str(s, "%") {
            Some(Operator::Modulo)
        } else if eq_str(s, "in") {
            Some(Operator::In)
        } else if eq_str(s, "cat") {
            Some(Operator::Cat)
        } else if eq_str(s, "substr") {
            Some(Operator::Substr)
        } else if eq_str(s, "log") {
            Some(Operator::Log)
        } else if eq_str(s, "merge") {
            Some(Operator::Merge)
        } else if eq_str(s, "map") {
            Some(Operator::MapArray)
        } else if eq_str(s, "filter") {
            Some(Operator::FilterArray)
        } else if eq_str(s, "reduce") {
            Some(Operator::Reduce)
        } else if eq_str(s, "all") {
            Some(Operator::AllArray)
        } else if eq_str(s, "some") {
            Some(Operator::SomeArray)
        } else if eq_str(s, "none") {
            Some(Operator::NoneArray)
        } else {
            None
        }
    }
}

/// The argument at `i`, evaluated; null where there is none.
pub(crate) fn compute_arg(args: &Vec<Expression>, data: &Data, i: usize) -> (r: Json)
    ensures
        r@ == arg_or_null(exprs_v(args@), data@, i as int),
    decreases args, 0int, 0int,
{
    if i < args.len() {
        let r = args[i].compute_with_data(data);
        proof {
            assert(exprs_v(args@)[i as int] == args@[i as int]@);
        }
        r
    } else {
        Json::Null
    }
}

impl Operator {
    /// Reduces this operator over its argument expressions against the data.
    pub fn compute(self, args: &Vec<Expression>, data: &Data) -> (r: Json)
        ensures
            r@ == sem_op(self, exprs_v(args@), data@),
        decreases args, args@.len() + 2, 0int,
    {
        match self {
            Operator::Equal => equality::compute(args, data),
            Operator::StrictEqual => strict_equality::compute(args, data),
            Operator::NotEqual => not_equal::compute(args, data),
            Operator::StrictNotEqual => strict_not_equal::compute(args, data),
            Operator::Variable => variable::compute(args, data),
            Operator::Negation => negation::compute(args, data),
            Operator::DoubleNegation => double_negation::compute(args, data),
            Operator::If => if_else::compute(args, data),
            Operator::Or => or_op::compute(args, data),
            Operator::And => and_op::compute(args, data),
            Operator::LessThan => less_than::compute(args, data),
            Operator::LessEqualThan => less_equal_than::compute(args, data),
            Operator::GreaterThan => greater_than::compute(args, data),
            Operator::GreaterEqualThan => greater_equal_than::compute(args, data),
            Operator::Missing => missing::compute(args, data),
            Operator::MissingSome => missing_some::compute(args, data),
            Operator::Min => min::compute(args, data),
            Operator::Max => max::compute(args, data),
            Operator::Addition => addition::compute(args, data),
            Operator::Subtraction => subtraction::compute(args, data),
            Operator::Multiplication => multiplication::compute(args, data),
            Operator::Division => division::compute(args, data),
            Operator::Modulo => modulo::compute(args, data),
            Operator::In => is_in::compute(args, data),
            Operator::Cat => cat::compute(args, data),
            Operator::Substr => substr::compute(args, data),
            Operator::Log => log::compute(args, data),
            Operator::Merge => merge::compute(args, data),
            Operator::MapArray => map::compute(args, data),
            Operator::FilterArray => filter::compute(args, data),
            Operator::Reduce => reduce::compute(args, data),
            Operator::AllArray => all::compute(args, data),
            Operator::SomeArray => some_of::compute(args, data),
            Operator::NoneArray => none_of::compute(args, data),
        }
    }
}

} // verus!
