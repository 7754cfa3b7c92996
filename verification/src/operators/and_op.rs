use crate::data::Data;
use crate::expression::{exprs_v, Expression};
use crate::json::{jv, jvs, Json, JsonV};
use crate::operators::{compute_arg, Operator};
use vstd::prelude::*;

verus! {

/// Returns the first falsy argument, or the last argument; null on none.
pub fn compute(args: &Vec<Expression>, data: &Data) -> (r: Json)
    ensures
        r@ == crate::sem::sem_op(Operator::And, exprs_v(args@), data@),
    decreases args, args@.len() + 1, 0int,
{
    fold(args, data, 0)
}

/// The fold from argument `i` on.
fn fold(args: &Vec<Expression>, data: &Data, i: usize) -> (r: Json)
    requires
        i <= args@.len(),
    ensures
        r@ == crate::sem::sem_and(exprs_v(args@), data@, i as int),
    decreases args, args@.len() - i, 0int,
{
    if i >= args.len() {
        return Json::Null;
    }
    proof {
        assert(exprs_v(args@)[i as int] == args@[i as int]@);
    }
    let v = args[i].compute_with_data(data);
    if !crate::logic::is_truthy(&v) || i == args.len() - 1 {
        v
    } else {
        fold(args, data, i + 1)
    }
}
} // verus!
