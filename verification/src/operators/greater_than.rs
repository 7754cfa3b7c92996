use crate::data::Data;
use crate::expression::{exprs_v, Expression};
use crate::json::{jv, jvs, Json, JsonV};
use crate::operators::{compute_arg, Operator};
use vstd::prelude::*;

verus! {

/// Greater than of the first two arguments; fewer give false.
pub fn compute(args: &Vec<Expression>, data: &Data) -> (r: Json)
    ensures
        r@ == crate::sem::sem_op(Operator::GreaterThan, exprs_v(args@), data@),
    decreases args, args@.len() + 1, 0int,
{
    if args.len() < 2 {
        return Json::Bool(false);
    }
    let a = args[0].compute_with_data(data);
    let b = args[1].compute_with_data(data);
    proof {
        assert(exprs_v(args@)[0] == args@[0]@);
        assert(exprs_v(args@)[1] == args@[1]@);
    }
    Json::Bool(crate::logic::greater_than(&a, &b))
}
} // verus!
