//! The value semantics of the rule language: truthiness, the string and
//! number coercions, loose and strict equality, and relational ordering.
use crate::dbl::{dbl_eq, dbl_lt, dbl_of_u64, dbl_of_i64, dbl_parse, eq_dbl, lt_dbl, parse_dbl, u64_dbl, i64_dbl};
use crate::json::{jv, jvs, lemma_jv_arr, Json, JsonV, Num, NumV};
use crate::strings::{dec_str, int_str, i64_str, lt_str, str_lt, trim_of, trim_str, u64_str};
use vstd::prelude::*;
use vstd::string::StrSliceExecFns;
use vstd::string::StringExecFns;

verus! {

/// The double a number denotes, as round-trip decimal text.
pub open spec fn num_dbl(n: NumV) -> Seq<char> {
    match n {
        NumV::PosInt(u) => dbl_of_u64(u),
        NumV::NegInt(i) => dbl_of_i64(i),
        NumV::Float(s) => s,
    }
}

/// How a number prints: integers in decimal, doubles by their carried text.
pub open spec fn num_str(n: NumV) -> Seq<char> {
    match n {
        NumV::PosInt(u) => dec_str(u as int),
        NumV::NegInt(i) => int_str(i as int),
        NumV::Float(s) => s,
    }
}

/// JavaScript-style truthiness: everything is true but `false`, `null`,
/// zero, the empty string and the empty array.
pub open spec fn truthy(v: JsonV) -> bool {
    match v {
        JsonV::Null => false,
        JsonV::Bool(b) => b,
        JsonV::Num(n) => !dbl_eq(num_dbl(n), dbl_of_u64(0)),
        JsonV::Str(s) => s.len() > 0,
        JsonV::Arr(a) => a.len() > 0,
        JsonV::Obj(_) => true,
    }
}

/// The JavaScript operation `String(v)`.
pub open spec fn str_of(v: JsonV) -> Seq<char>
    decreases v,
{
    match v {
        JsonV::Null => ("null")@,
        JsonV::Bool(b) => if b {
            ("true")@
        } else {
            ("false")@
        },
        JsonV::Num(n) => num_str(n),
        JsonV::Str(s) => s,
        JsonV::Arr(a) => join_comma(a),
        JsonV::Obj(_) => ("[object Object]")@,
    }
}

/// The elements printed by `String(v)` and joined with commas; how an array
/// converts to a primitive.
pub open spec fn join_comma(a: Seq<JsonV>) -> Seq<char>
    decreases a,
{
    if a.len() == 0 {
        Seq::empty()
    } else if a.len() == 1 {
        str_of(a[0])
    } else {
        str_of(a[0]) + seq![','] + join_comma(a.subrange(1, a.len() as int))
    }
}

/// The JavaScript operation `Number(v)`: the denoted double as text, or
/// `None` where the value has no numeric reading.
pub open spec fn num_of(v: JsonV) -> Option<Seq<char>>
    decreases v,
{
    match v {
        JsonV::Null => Some(dbl_of_u64(0)),
        JsonV::Bool(b) => Some(dbl_of_u64(if b {
            1
        } else {
            0
        })),
        JsonV::Num(n) => Some(num_dbl(n)),
        JsonV::Str(s) => {
            let t = trim_of(s);
            if t.len() == 0 {
                Some(dbl_of_u64(0))
            } else {
                dbl_parse(t)
            }
        },
        JsonV::Arr(a) => if a.len() == 0 {
            Some(dbl_of_u64(0))
        } else if a.len() == 1 {
            match a[0] {
                JsonV::Arr(_) => num_of(a[0]),
                JsonV::Null => num_of(a[0]),
                JsonV::Num(_) => num_of(a[0]),
                JsonV::Str(_) => num_of(a[0]),
                _ => None,
            }
        } else {
            None
        },
        JsonV::Obj(_) => None,
    }
}

/// JavaScript's `parseFloat` as `+` and `*` use it: like `Number(v)`, but
/// null has no numeric reading.
pub open spec fn pfloat_of(v: JsonV) -> Option<Seq<char>> {
    if v is Null {
        None
    } else {
        num_of(v)
    }
}

/// Equality of two numbers: integer against integer compares exactly;
/// a double on either side compares as doubles.
pub open spec fn num_eq(a: NumV, b: NumV) -> bool {
    match (a, b) {
        (NumV::PosInt(x), NumV::PosInt(y)) => x == y,
        (NumV::PosInt(x), NumV::NegInt(y)) => x as int == y as int,
        (NumV::NegInt(x), NumV::PosInt(y)) => x as int == y as int,
        (NumV::NegInt(x), NumV::NegInt(y)) => x == y,
        _ => dbl_eq(num_dbl(a), num_dbl(b)),
    }
}

/// Strict (`===`) equality: same type only, and arrays and objects are
/// never strictly equal, their identities being distinct.
pub open spec fn strict_eq(a: JsonV, b: JsonV) -> bool {
    match (a, b) {
        (JsonV::Arr(_), JsonV::Arr(_)) => false,
        (JsonV::Bool(x), JsonV::Bool(y)) => x == y,
        (JsonV::Null, JsonV::Null) => true,
        (JsonV::Num(x), JsonV::Num(y)) => num_eq(x, y),
        (JsonV::Obj(_), JsonV::Obj(_)) => false,
        (JsonV::Str(x), JsonV::Str(y)) => x == y,
        _ => false,
    }
}

/// How many coercion steps abstract equality may still take on a value:
/// a bool becomes a number, an array becomes a string.
pub open spec fn ae_rank(v: JsonV) -> int {
    match v {
        JsonV::Bool(_) => 2,
        JsonV::Arr(_) => 1,
        _ => 0,
    }
}

/// Abstract (`==`) equality, the ECMA algorithm: same types compare
/// strictly; a number meets a string through `Number(string)`; a bool is
/// read as a number; an array meets a number or a string through its
/// comma-joined text; an object equals nothing.
pub open spec fn abs_eq(a: JsonV, b: JsonV) -> bool
    decreases ae_rank(a) + ae_rank(b),
{
    match (a, b) {
        (JsonV::Arr(_), JsonV::Arr(_)) => strict_eq(a, b),
        (JsonV::Bool(_), JsonV::Bool(_)) => strict_eq(a, b),
        (JsonV::Null, JsonV::Null) => strict_eq(a, b),
        (JsonV::Num(_), JsonV::Num(_)) => strict_eq(a, b),
        (JsonV::Obj(_), JsonV::Obj(_)) => strict_eq(a, b),
        (JsonV::Str(_), JsonV::Str(_)) => strict_eq(a, b),
        (JsonV::Null, _) => false,
        (_, JsonV::Null) => false,
        (JsonV::Num(x), JsonV::Str(_)) => match num_of(b) {
            Some(d) => dbl_eq(num_dbl(x), d),
            None => false,
        },
        (JsonV::Str(_), JsonV::Num(y)) => match num_of(a) {
            Some(d) => dbl_eq(d, num_dbl(y)),
            None => false,
        },
        (JsonV::Bool(x), _) => abs_eq(
            JsonV::Num(NumV::Float(dbl_of_u64(if x {
                1
            } else {
                0
            }))),
            b,
        ),
        (_, JsonV::Bool(y)) => abs_eq(
            a,
            JsonV::Num(NumV::Float(dbl_of_u64(if y {
                1
            } else {
                0
            }))),
        ),
        (JsonV::Obj(_), _) => false,
        (_, JsonV::Obj(_)) => false,
        (JsonV::Str(x), JsonV::Arr(ar)) => x == join_comma(ar),
        (JsonV::Arr(ar), JsonV::Str(y)) => y == join_comma(ar),
        (JsonV::Num(_), JsonV::Arr(ar)) => abs_eq(a, JsonV::Str(join_comma(ar))),
        (JsonV::Arr(ar), JsonV::Num(_)) => abs_eq(JsonV::Str(join_comma(ar)), b),
    }
}

/// The ECMA abstract relational `<`: strings compare lexicographically,
/// arrays through their texts, objects are below nothing, and everything
/// else meets as numbers, false where a side has no numeric reading.
pub open spec fn lt(a: JsonV, b: JsonV) -> bool {
    match (a, b) {
        (JsonV::Null, JsonV::Null) => false,
        (JsonV::Bool(x), JsonV::Bool(y)) => !x && y,
        (JsonV::Obj(_), _) => false,
        (_, JsonV::Obj(_)) => false,
        (JsonV::Str(x), JsonV::Str(y)) => str_lt(x, y),
        (JsonV::Arr(_), JsonV::Arr(_)) => str_lt(str_of(a), str_of(b)),
        (JsonV::Arr(_), JsonV::Str(_)) => str_lt(str_of(a), str_of(b)),
        (JsonV::Str(_), JsonV::Arr(_)) => str_lt(str_of(a), str_of(b)),
        _ => match (num_of(a), num_of(b)) {
            (Some(x), Some(y)) => dbl_lt(x, y),
            _ => false,
        },
    }
}

/// `a <= b` is `a < b` or `a == b` (abstractly).
pub open spec fn le(a: JsonV, b: JsonV) -> bool {
    lt(a, b) || abs_eq(a, b)
}

/// The double a number denotes, as text.
pub fn num_dbl_str(n: &Num) -> (r: String)
    ensures
        r@ == num_dbl(n@),
{
    match n {
        Num::PosInt(u) => u64_dbl(*u),
        Num::NegInt(i) => i64_dbl(*i),
        Num::Float(s) => s.clone(),
    }
}

/// How a number prints: integers in decimal, doubles by their carried text.
pub fn num_to_str(n: &Num) -> (r: String)
    ensures
        r@ == num_str(n@),
{
    match n {
        Num::PosInt(u) => u64_str(*u),
        Num::NegInt(i) => i64_str(*i),
        Num::Float(s) => s.clone(),
    }
}

/// JavaScript-style truthiness of a value.
pub fn is_truthy(value: &Json) -> (r: bool)
    ensures
        r == truthy(value@),
{
    match value {
        Json::Null => false,
        Json::Bool(b) => *b,
        Json::Num(n) => {
            let d = num_dbl_str(n);
            let z = u64_dbl(0);
            !eq_dbl(d.as_str(), z.as_str())
        },
        Json::Str(s) => s.unicode_len() > 0,
        Json::Arr(a) => a.len() > 0,
        Json::Obj(_) => true,
    }
}

/// The JavaScript operation `String(v)`.
pub fn coerce_to_str(val: &Json) -> (r: String)
    ensures
        r@ == str_of(val@),
    decreases val, 0int,
{
    match val {
        Json::Null => String::from_str("null"),
        Json::Bool(b) => if *b {
            String::from_str("true")
        } else {
            String::from_str("false")
        },
        Json::Num(n) => num_to_str(n),
        Json::Str(s) => s.clone(),
        Json::Arr(a) => {
            proof {
                broadcast use lemma_jv_arr;

            }
            let r = join_comma_str(a, 0);
            proof {
                assert(jvs(a@).subrange(0, a@.len() as int) =~= jvs(a@));
            }
            r
        },
        Json::Obj(_) => String::from_str("[object Object]"),
    }
}

/// The elements of the array from `i` on, printed and joined with commas.
fn join_comma_str(a: &Vec<Json>, i: usize) -> (r: String)
    requires
        i <= a@.len(),
    ensures
        r@ == join_comma(jvs(a@).subrange(i as int, a@.len() as int)),
    decreases a, a@.len() - i,
{
    let ghost tail = jvs(a@).subrange(i as int, a@.len() as int);
    if i == a.len() {
        let r = String::new();
        r
    } else if i + 1 == a.len() {
        let r = coerce_to_str(&a[i]);
        proof {
            assert(tail[0] == jv(a@[i as int]));
        }
        r
    } else {
        let mut r = coerce_to_str(&a[i]);
        r.append(",");
        let rest = join_comma_str(a, i + 1);
        r.append(rest.as_str());
        proof {
            reveal_strlit(",");
            assert(tail[0] == jv(a@[i as int]));
            assert(tail.subrange(1, tail.len() as int) =~= jvs(a@).subrange(
                i + 1,
                a@.len() as int,
            ));
            assert(r@ =~= join_comma(tail));
        }
        r
    }
}

/// The JavaScript operation `Number(v)`, as text; `None` where the value
/// has no numeric reading.
pub fn coerce_to_f64(val: &Json) -> (r: Option<String>)
    ensures
        r matches Some(t) ==> num_of(val@) == Some(t@),
        r is None ==> num_of(val@) is None,
    decreases val,
{
    match val {
        Json::Null => Some(u64_dbl(0)),
        Json::Bool(b) => Some(u64_dbl(if *b {
            1
        } else {
            0
        })),
        Json::Num(n) => Some(num_dbl_str(n)),
        Json::Str(s) => {
            let t = trim_str(s.as_str());
            if t.unicode_len() == 0 {
                Some(u64_dbl(0))
            } else {
                parse_dbl(t.as_str())
            }
        },
        Json::Arr(a) => {
            proof {
                broadcast use lemma_jv_arr;

            }
            if a.len() == 0 {
                Some(u64_dbl(0))
            } else if a.len() == 1 {
                let el = &a[0];
                proof {
                    assert(jvs(a@)[0] == jv(a@[0]));
                }
                match el {
                    Json::Arr(_) => coerce_to_f64(el),
                    Json::Null => coerce_to_f64(el),
                    Json::Num(_) => coerce_to_f64(el),
                    Json::Str(_) => coerce_to_f64(el),
                    _ => None,
                }
            } else {
                None
            }
        },
        Json::Obj(_) => None,
    }
}

/// JavaScript's `parseFloat` as `+` and `*` use it: like `Number(v)`, but
/// null has no numeric reading.
pub fn parse_float(val: &Json) -> (r: Option<String>)
    ensures
        r matches Some(t) ==> pfloat_of(val@) == Some(t@),
        r is None ==> pfloat_of(val@) is None,
{
    match val {
        Json::Null => None,
        _ => coerce_to_f64(val),
    }
}

/// Equality of two numbers: integer against integer compares exactly,
/// a double on either side compares as doubles.
fn nums_equal(a: &Num, b: &Num) -> (r: bool)
    ensures
        r == num_eq(a@, b@),
{
    match (a, b) {
        (Num::PosInt(x), Num::PosInt(y)) => *x == *y,
        (Num::PosInt(x), Num::NegInt(y)) => *y >= 0 && *x == *y as u64,
        (Num::NegInt(x), Num::PosInt(y)) => *x >= 0 && *x as u64 == *y,
        (Num::NegInt(x), Num::NegInt(y)) => *x == *y,
        _ => {
            let da = num_dbl_str(a);
            let db = num_dbl_str(b);
            eq_dbl(da.as_str(), db.as_str())
        },
    }
}

/// Strict (`===`) equality of two values.
pub fn is_strict_equal(a: &Json, b: &Json) -> (r: bool)
    ensures
        r == strict_eq(a@, b@),
{
    match (a, b) {
        (Json::Arr(_), Json::Arr(_)) => false,
        (Json::Bool(x), Json::Bool(y)) => *x == *y,
        (Json::Null, Json::Null) => true,
        (Json::Num(x), Json::Num(y)) => nums_equal(x, y),
        (Json::Obj(_), Json::Obj(_)) => false,
        (Json::Str(x), Json::Str(y)) => *x == *y,
        _ => false,
    }
}

/// Abstract (`==`) equality of two values, with type coercion.
pub fn is_abstract_equal(a: &Json, b: &Json) -> (r: bool)
    ensures
        r == abs_eq(a@, b@),
    decreases ae_rank(a@) + ae_rank(b@),
{
    match (a, b) {
        (Json::Arr(_), Json::Arr(_)) => is_strict_equal(a, b),
        (Json::Bool(_), Json::Bool(_)) => is_strict_equal(a, b),
        (Json::Null, Json::Null) => is_strict_equal(a, b),
        (Json::Num(_), Json::Num(_)) => is_strict_equal(a, b),
        (Json::Obj(_), Json::Obj(_)) => is_strict_equal(a, b),
        (Json::Str(_), Json::Str(_)) => is_strict_equal(a, b),
        (Json::Null, _) => false,
        (_, Json::Null) => false,
        (Json::Num(x), Json::Str(_)) => match coerce_to_f64(b) {
            Some(d) => {
                let da = num_dbl_str(x);
                eq_dbl(da.as_str(), d.as_str())
            },
            None => false,
        },
        (Json::Str(_), Json::Num(y)) => match coerce_to_f64(a) {
            Some(d) => {
                let db = num_dbl_str(y);
                eq_dbl(d.as_str(), db.as_str())
            },
            None => false,
        },
        (Json::Bool(x), _) => {
            let n = Json::Num(Num::Float(u64_dbl(if *x {
                1
            } else {
                0
            })));
            is_abstract_equal(&n, b)
        },
        (_, Json::Bool(y)) => {
            let n = Json::Num(Num::Float(u64_dbl(if *y {
                1
            } else {
                0
            })));
            is_abstract_equal(a, &n)
        },
        (Json::Obj(_), _) => false,
        (_, Json::Obj(_)) => false,
        (Json::Str(x), Json::Arr(ar)) => {
            proof {
                broadcast use lemma_jv_arr;

            }
            let j = join_comma_str(ar, 0);
            proof {
                assert(jvs(ar@).subrange(0, ar@.len() as int) =~= jvs(ar@));
            }
            *x == j
        },
        (Json::Arr(ar), Json::Str(y)) => {
            proof {
                broadcast use lemma_jv_arr;

            }
            let j = join_comma_str(ar, 0);
            proof {
                assert(jvs(ar@).subrange(0, ar@.len() as int) =~= jvs(ar@));
            }
            *y == j
        },
        (Json::Num(_), Json::Arr(ar)) => {
            proof {
                broadcast use lemma_jv_arr;

            }
            let j = join_comma_str(ar, 0);
            proof {
                assert(jvs(ar@).subrange(0, ar@.len() as int) =~= jvs(ar@));
            }
            let s = Json::Str(j);
            is_abstract_equal(a, &s)
        },
        (Json::Arr(ar), Json::Num(_)) => {
            proof {
                broadcast use lemma_jv_arr;

            }
            let j = join_comma_str(ar, 0);
            proof {
                assert(jvs(ar@).subrange(0, ar@.len() as int) =~= jvs(ar@));
            }
            let s = Json::Str(j);
            is_abstract_equal(&s, b)
        },
    }
}

/// The ECMA abstract relational `<`.
pub fn less_than(a: &Json, b: &Json) -> (r: bool)
    ensures
        r == lt(a@, b@),
{
    match (a, b) {
        (Json::Null, Json::Null) => false,
        (Json::Bool(x), Json::Bool(y)) => !*x && *y,
        (Json::Obj(_), _) => false,
        (_, Json::Obj(_)) => false,
        (Json::Str(x), Json::Str(y)) => lt_str(x.as_str(), y.as_str()),
        (Json::Arr(_), Json::Arr(_)) => {
            let sa = coerce_to_str(a);
            let sb = coerce_to_str(b);
            lt_str(sa.as_str(), sb.as_str())
        },
        (Json::Arr(_), Json::Str(_)) => {
            let sa = coerce_to_str(a);
            let sb = coerce_to_str(b);
            lt_str(sa.as_str(), sb.as_str())
        },
        (Json::Str(_), Json::Arr(_)) => {
            let sa = coerce_to_str(a);
            let sb = coerce_to_str(b);
            lt_str(sa.as_str(), sb.as_str())
        },
        _ => match (coerce_to_f64(a), coerce_to_f64(b)) {
            (Some(x), Some(y)) => lt_dbl(x.as_str(), y.as_str()),
            _ => false,
        },
    }
}

/// `a <= b`: below or abstractly equal.
pub fn less_equal_than(a: &Json, b: &Json) -> (r: bool)
    ensures
        r == le(a@, b@),
{
    less_than(a, b) || is_abstract_equal(a, b)
}

/// `a > b`: not below and not abstractly equal.
pub fn greater_than(a: &Json, b: &Json) -> (r: bool)
    ensures
        r == !le(a@, b@),
{
    !less_equal_than(a, b)
}

/// `a >= b`: not below.
pub fn greater_equal_than(a: &Json, b: &Json) -> (r: bool)
    ensures
        r == !lt(a@, b@),
{
    !less_than(a, b)
}

} // verus!
