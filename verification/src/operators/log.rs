use crate::data::Data;
use crate::expression::{exprs_v, Expression};
use crate::json::{jv, jvs, Json, JsonV};
use crate::operators::{compute_arg, Operator};
use vstd::prelude::*;

verus! {

/// Passes the first argument through unmodified; a caller may hand it to a
/// diagnostic sink.
pub fn compute(args: &Vec<Expression>, data: &Data) -> (r: Json)
    ensures
        r@ == crate::sem::sem_op(Operator::Log, exprs_v(args@), data@),
    decreases args, args@.len() + 1, 0int,
{
    compute_arg(args, data, 0)
}
} // verus!
