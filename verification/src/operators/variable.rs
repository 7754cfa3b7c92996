use crate::data::Data;
use crate::expression::{exprs_v, Expression};
use crate::json::{jv, jvs, Json, JsonV};
use crate::operators::{compute_arg, Operator};
use vstd::prelude::*;

verus! {

use vstd::string::StrSliceExecFns;

/// Retrieves data by the computed path; an absent, null or empty-string
/// path gives the whole data, and a miss gives the second argument or null.
pub fn compute(args: &Vec<Expression>, data: &Data) -> (r: Json)
    ensures
        r@ == crate::sem::sem_op(Operator::Variable, exprs_v(args@), data@),
    decreases args, args@.len() + 1, 0int,
{
    let arg = compute_arg(args, data, 0);
    match &arg {
        Json::Null => data.get_plain().clone(),
        Json::Str(s) => {
            if s.unicode_len() == 0 {
                data.get_plain().clone()
            } else {
                lookup_or_default(&arg, args, data)
            }
        },
        _ => lookup_or_default(&arg, args, data),
    }
}

/// The looked-up value, or the second argument where the lookup misses.
fn lookup_or_default(arg: &Json, args: &Vec<Expression>, data: &Data) -> (r: Json)
    ensures
        r@ == (match crate::data::lookup(data@, arg@) {
            Some(v) => v,
            None => crate::sem::arg_or_null(exprs_v(args@), data@, 1),
        }),
    decreases args, 0int, 1int,
{
    match data.get_value(arg) {
        Some(v) => v,
        None => compute_arg(args, data, 1),
    }
}
} // verus!
