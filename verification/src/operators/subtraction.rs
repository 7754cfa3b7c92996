use crate::data::Data;
use crate::expression::{exprs_v, Expression};
use crate::json::{jv, jvs, Json, JsonV};
use crate::operators::{compute_arg, Operator};
use vstd::prelude::*;

verus! {

use crate::json::Num;

/// Subtracts the second argument from the first; with one argument, its
/// negation. Null where a side has no numeric reading or there are none.
pub fn compute(args: &Vec<Expression>, data: &Data) -> (r: Json)
    ensures
        r@ == crate::sem::sem_op(Operator::Subtraction, exprs_v(args@), data@),
    decreases args, args@.len() + 1, 0int,
{
    if args.len() == 0 {
        return Json::Null;
    }
    proof {
        assert(exprs_v(args@)[0] == args@[0]@);
    }
    let a = args[0].compute_with_data(data);
    if args.len() == 1 {
        match crate::logic::coerce_to_f64(&a) {
            Some(x) => {
                let minus_one = crate::dbl::i64_dbl(-1);
                finite_result(crate::dbl::mul_dbl(minus_one.as_str(), x.as_str()))
            },
            None => Json::Null,
        }
    } else {
        proof {
            assert(exprs_v(args@)[1] == args@[1]@);
        }
        let b = args[1].compute_with_data(data);
        match (crate::logic::coerce_to_f64(&a), crate::logic::coerce_to_f64(&b)) {
            (Some(x), Some(y)) => finite_result(crate::dbl::sub_dbl(x.as_str(), y.as_str())),
            _ => Json::Null,
        }
    }
}

/// A finite difference is a number; an infinity or NaN is null.
fn finite_result(acc: String) -> (r: Json)
    ensures
        r@ == crate::sem::num_result(acc@),
{
    if crate::dbl::finite_dbl(acc.as_str()) {
        Json::Num(Num::Float(acc))
    } else {
        Json::Null
    }
}
} // verus!
