use crate::data::Data;
use crate::expression::{exprs_v, Expression};
use crate::json::{jv, jvs, Json, JsonV};
use crate::operators::{compute_arg, Operator};
use vstd::prelude::*;

verus! {

use crate::json::Num;

/// Multiplies the arguments as numbers; a single argument passes through
/// unchanged, and none at all give null.
pub fn compute(args: &Vec<Expression>, data: &Data) -> (r: Json)
    ensures
        r@ == crate::sem::sem_op(Operator::Multiplication, exprs_v(args@), data@),
    decreases args, args@.len() + 1, 0int,
{
    if args.len() == 0 {
        return Json::Null;
    }
    if args.len() == 1 {
        proof {
            assert(exprs_v(args@)[0] == args@[0]@);
        }
        return args[0].compute_with_data(data);
    }
    fold(args, data, 0, crate::dbl::u64_dbl(1))
}

/// The running fold from argument `i` on.
fn fold(args: &Vec<Expression>, data: &Data, i: usize, acc: String) -> (r: Json)
    requires
        i <= args@.len(),
    ensures
        r@ == crate::sem::sem_mul(exprs_v(args@), data@, i as int, acc@),
    decreases args, args@.len() - i, 0int,
{
    if i >= args.len() {
        return finite_result(acc);
    }
    proof {
        assert(exprs_v(args@)[i as int] == args@[i as int]@);
    }
    let v = args[i].compute_with_data(data);
    match crate::logic::parse_float(&v) {
        Some(x) => fold(args, data, i + 1, crate::dbl::mul_dbl(acc.as_str(), x.as_str())),
        None => Json::Null,
    }
}

/// A finite total is a number; an infinity or NaN is null.
fn finite_result(acc: String) -> (r: Json)
    ensures
        r@ == crate::sem::num_result(acc@),
{
    if crate::dbl::finite_dbl(acc.as_str()) {
        Json::Num(Num::Float(acc))
    } else {
        Json::Null
    }
}
} // verus!
