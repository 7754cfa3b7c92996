use crate::data::Data;
use crate::expression::{exprs_v, Expression};
use crate::json::{jv, jvs, Json, JsonV};
use crate::operators::{compute_arg, Operator};
use vstd::prelude::*;

verus! {

use crate::json::Num;

/// The remainder of the first argument divided by the second. A zero
/// divisor or a failed reading gives null.
pub fn compute(args: &Vec<Expression>, data: &Data) -> (r: Json)
    ensures
        r@ == crate::sem::sem_op(Operator::Modulo, exprs_v(args@), data@),
    decreases args, args@.len() + 1, 0int,
{
    if args.len() < 1 {
        return Json::Null;
    }
    proof {
        assert(exprs_v(args@)[0] == args@[0]@);
    }
    let a = args[0].compute_with_data(data);
    let x = match crate::logic::coerce_to_f64(&a) {
        Some(x) => x,
        None => {
            return Json::Null;
        },
    };
    if args.len() < 2 {
        return Json::Null;
    }
    proof {
        assert(exprs_v(args@)[1] == args@[1]@);
    }
    let b = args[1].compute_with_data(data);
    let y = match crate::logic::coerce_to_f64(&b) {
        Some(y) => y,
        None => {
            return Json::Null;
        },
    };
    let q = crate::dbl::rem_dbl(x.as_str(), y.as_str());
    if crate::dbl::finite_dbl(q.as_str()) {
        Json::Num(Num::Float(q))
    } else {
        Json::Null
    }
}
} // verus!
