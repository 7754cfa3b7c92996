//! The IEEE-754 double primitives the rule language leans on.
//!
//! A double travels through the library as its shortest round-trip decimal
//! text (the form serde_json prints). The operations below are named,
//! uninterpreted functions of that text; each is computed by one trusted
//! function whose body reads the texts back as doubles, applies one
//! primitive, and prints the result the same way. Text that does not denote
//! a double is read as NaN.
use vstd::prelude::*;

verus! {

/// Names the shortest round-trip decimal text of the IEEE-754 double sum
/// of the doubles the two texts denote.
pub uninterp spec fn dbl_add(a: Seq<char>, b: Seq<char>) -> Seq<char>;

/// Names the text of the IEEE-754 double difference of the doubles denoted.
pub uninterp spec fn dbl_sub(a: Seq<char>, b: Seq<char>) -> Seq<char>;

/// Names the text of the IEEE-754 double product of the doubles denoted.
pub uninterp spec fn dbl_mul(a: Seq<char>, b: Seq<char>) -> Seq<char>;

/// Names the text of the IEEE-754 double quotient of the doubles denoted.
pub uninterp spec fn dbl_div(a: Seq<char>, b: Seq<char>) -> Seq<char>;

/// Names the text of the IEEE-754 double remainder of the doubles denoted.
pub uninterp spec fn dbl_rem(a: Seq<char>, b: Seq<char>) -> Seq<char>;

/// Names IEEE-754 double equality of the doubles the two texts denote,
/// taken in the order given.
pub uninterp spec fn ieee_eq(a: Seq<char>, b: Seq<char>) -> bool;

/// IEEE-754 double equality of the doubles the two texts denote. IEEE
/// equality is symmetric, so it equals `ieee_eq` either way around; writing
/// the disjunction makes the symmetry visible to proofs.
pub open spec fn dbl_eq(a: Seq<char>, b: Seq<char>) -> bool {
    ieee_eq(a, b) || ieee_eq(b, a)
}

/// Names the IEEE-754 `<` of the doubles the two texts denote.
pub uninterp spec fn dbl_lt(a: Seq<char>, b: Seq<char>) -> bool;

/// Names the text of the double nearest to the given integer.
pub uninterp spec fn dbl_of_u64(u: u64) -> Seq<char>;

/// Names the text of the double nearest to the given integer.
pub uninterp spec fn dbl_of_i64(i: i64) -> Seq<char>;

/// Names what Rust's double parser makes of the text: the text of the
/// parsed double, or `None` where the text is not a number.
pub uninterp spec fn dbl_parse(s: Seq<char>) -> Option<Seq<char>>;

/// Names whether the text denotes a finite double (neither infinite nor NaN).
pub uninterp spec fn dbl_finite(s: Seq<char>) -> bool;

/// Names the floor of the denoted double as an `i64`, saturating at the
/// ends and reading NaN as 0.
pub uninterp spec fn dbl_floor(s: Seq<char>) -> i64;

/// Names the ceiling of the denoted double as a `u64`, saturating at the
/// ends (so negatives give 0) and reading NaN as 0.
pub uninterp spec fn dbl_ceil_u64(s: Seq<char>) -> u64;

/// Relies on Rust's double addition (IEEE-754 binary64), on its double
/// parser, and on serde_json::Number's shortest round-trip formatting; the
/// result is a function of the two operand texts alone.
#[verifier::external_body]
pub(crate) fn add_dbl(a: &str, b: &str) -> (r: String)
    ensures
        r@ == dbl_add(a@, b@),
{
    let zero = serde_json::Number::from(0u8).as_f64().unwrap();
    let x = a.parse().unwrap_or(zero / zero);
    let y = b.parse().unwrap_or(zero / zero);
    let s = x + y;
    match serde_json::Number::from_f64(s) {
        Some(n) => n.to_string(),
        None => format!("{}", s),
    }
}

/// Relies on Rust's double subtraction, parser and formatting, as `add_dbl`.
#[verifier::external_body]
pub(crate) fn sub_dbl(a: &str, b: &str) -> (r: String)
    ensures
        r@ == dbl_sub(a@, b@),
{
    let zero = serde_json::Number::from(0u8).as_f64().unwrap();
    let x = a.parse().unwrap_or(zero / zero);
    let y = b.parse().unwrap_or(zero / zero);
    let s = x - y;
    match serde_json::Number::from_f64(s) {
        Some(n) => n.to_string(),
        None => format!("{}", s),
    }
}

/// Relies on Rust's double multiplication, parser and formatting, as `add_dbl`.
#[verifier::external_body]
pub(crate) fn mul_dbl(a: &str, b: &str) -> (r: String)
    ensures
        r@ == dbl_mul(a@, b@),
{
    let zero = serde_json::Number::from(0u8).as_f64().unwrap();
    let x = a.parse().unwrap_or(zero / zero);
    let y = b.parse().unwrap_or(zero / zero);
    let s = x * y;
    match serde_json::Number::from_f64(s) {
        Some(n) => n.to_string(),
        None => format!("{}", s),
    }
}

/// Relies on Rust's double division, parser and formatting, as `add_dbl`.
/// Division by zero gives an infinity or NaN, printed as such.
#[verifier::external_body]
pub(crate) fn div_dbl(a: &str, b: &str) -> (r: String)
    ensures
        r@ == dbl_div(a@, b@),
{
    let zero = serde_json::Number::from(0u8).as_f64().unwrap();
    let x = a.parse().unwrap_or(zero / zero);
    let y = b.parse().unwrap_or(zero / zero);
    let s = x / y;
    match serde_json::Number::from_f64(s) {
        Some(n) => n.to_string(),
        None => format!("{}", s),
    }
}

/// Relies on Rust's double remainder, parser and formatting, as `add_dbl`.
#[verifier::external_body]
pub(crate) fn rem_dbl(a: &str, b: &str) -> (r: String)
    ensures
        r@ == dbl_rem(a@, b@),
{
    let zero = serde_json::Number::from(0u8).as_f64().unwrap();
    let x = a.parse().unwrap_or(zero / zero);
    let y = b.parse().unwrap_or(zero / zero);
    let s = x % y;
    match serde_json::Number::from_f64(s) {
        Some(n) => n.to_string(),
        None => format!("{}", s),
    }
}

/// Relies on Rust's double equality (IEEE-754, so `-0 == 0` and NaN equals
/// nothing, itself included) and its double parser. IEEE equality is
/// symmetric, which `dbl_eq` spells out.
#[verifier::external_body]
pub(crate) fn eq_dbl(a: &str, b: &str) -> (r: bool)
    ensures
        r == dbl_eq(a@, b@),
        r == (ieee_eq(a@, b@) || ieee_eq(b@, a@)),
{
    let zero = serde_json::Number::from(0u8).as_f64().unwrap();
    let x = a.parse().unwrap_or(zero / zero);
    let y = b.parse().unwrap_or(zero / zero);
    x == y
}

/// Relies on Rust's double `<` (IEEE-754, so NaN is below nothing) and its
/// double parser.
#[verifier::external_body]
pub(crate) fn lt_dbl(a: &str, b: &str) -> (r: bool)
    ensures
        r == dbl_lt(a@, b@),
{
    let zero = serde_json::Number::from(0u8).as_f64().unwrap();
    let x = a.parse().unwrap_or(zero / zero);
    let y = b.parse().unwrap_or(zero / zero);
    x < y
}

/// Relies on Rust's `u64` to double cast (round to nearest), reached through
/// serde_json::Number::as_f64, and on serde_json's formatting of the result.
#[verifier::external_body]
pub(crate) fn u64_dbl(u: u64) -> (r: String)
    ensures
        r@ == dbl_of_u64(u),
{
    let v = serde_json::Number::from(u).as_f64().unwrap();
    serde_json::Number::from_f64(v).unwrap().to_string()
}

/// Relies on Rust's `i64` to double cast (round to nearest), reached through
/// serde_json::Number::as_f64, and on serde_json's formatting of the result.
#[verifier::external_body]
pub(crate) fn i64_dbl(i: i64) -> (r: String)
    ensures
        r@ == dbl_of_i64(i),
{
    let v = serde_json::Number::from(i).as_f64().unwrap();
    serde_json::Number::from_f64(v).unwrap().to_string()
}

/// Relies on Rust's double parser (`str::parse`), which accepts decimal and
/// exponent forms and the spellings of infinity and NaN, and on serde_json's
/// formatting of the parsed double.
#[verifier::external_body]
pub(crate) fn parse_dbl(s: &str) -> (r: Option<String>)
    ensures
        r matches Some(t) ==> Some(t@) == dbl_parse(s@),
        r is None ==> dbl_parse(s@) is None,
{
    match s.parse() {
        Ok(v) => Some(
            match serde_json::Number::from_f64(v) {
                Some(n) => n.to_string(),
                None => format!("{}", v),
            },
        ),
        Err(_) => None,
    }
}

/// Relies on serde_json::Number::from_f64, which accepts exactly the finite
/// doubles, and on Rust's double parser.
#[verifier::external_body]
pub(crate) fn finite_dbl(s: &str) -> (r: bool)
    ensures
        r == dbl_finite(s@),
{
    let zero = serde_json::Number::from(0u8).as_f64().unwrap();
    serde_json::Number::from_f64(s.parse().unwrap_or(zero / zero)).is_some()
}

/// Relies on Rust's double `floor` and its saturating double to `i64` cast
/// (NaN goes to 0), and on its double parser.
#[verifier::external_body]
pub(crate) fn floor_dbl(s: &str) -> (r: i64)
    ensures
        r == dbl_floor(s@),
{
    let zero = serde_json::Number::from(0u8).as_f64().unwrap();
    let v = s.parse().unwrap_or(zero / zero);
    v.floor() as i64
}

/// Relies on Rust's double `ceil` and its saturating double to `u64` cast
/// (NaN and negatives go to 0), and on its double parser.
#[verifier::external_body]
pub(crate) fn ceil_u64_dbl(s: &str) -> (r: u64)
    ensures
        r == dbl_ceil_u64(s@),
{
    let zero = serde_json::Number::from(0u8).as_f64().unwrap();
    let v = s.parse().unwrap_or(zero / zero);
    v.ceil() as u64
}

} // verus!
