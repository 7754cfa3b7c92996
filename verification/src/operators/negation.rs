use crate::data::Data;
use crate::expression::{exprs_v, Expression};
use crate::json::{jv, jvs, Json, JsonV};
use crate::operators::{compute_arg, Operator};
use vstd::prelude::*;

verus! {

/// Logical negation ("not") of the first argument's truthiness.
pub fn compute(args: &Vec<Expression>, data: &Data) -> (r: Json)
    ensures
        r@ == crate::sem::sem_op(Operator::Negation, exprs_v(args@), data@),
    decreases args, args@.len() + 1, 0int,
{
    let a = compute_arg(args, data, 0);
    Json::Bool(!crate::logic::is_truthy(&a))
}
} // verus!
