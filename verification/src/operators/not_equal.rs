use crate::data::Data;
use crate::expression::{exprs_v, Expression};
use crate::json::{jv, jvs, Json, JsonV};
use crate::operators::{compute_arg, Operator};
use vstd::prelude::*;

verus! {

/// Tests abstract not-equal of the first two arguments, with type coercion.
pub fn compute(args: &Vec<Expression>, data: &Data) -> (r: Json)
    ensures
        r@ == crate::sem::sem_op(Operator::NotEqual, exprs_v(args@), data@),
    decreases args, args@.len() + 1, 0int,
{
    let a = compute_arg(args, data, 0);
    let b = compute_arg(args, data, 1);
    Json::Bool(!crate::logic::is_abstract_equal(&a, &b))
}
} // verus!
