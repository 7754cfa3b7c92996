use crate::data::Data;
use crate::expression::{exprs_v, Expression};
use crate::json::{jv, jvs, Json, JsonV};
use crate::operators::{compute_arg, Operator};
use vstd::prelude::*;

verus! {

use crate::json::Num;

/// Sums all arguments as numbers; null where one has no numeric reading.
/// An empty argument list sums to zero.
pub fn compute(args: &Vec<Expression>, data: &Data) -> (r: Json)
    ensures
        r@ == crate::sem::sem_op(Operator::Addition, exprs_v(args@), data@),
    decreases args, args@.len() + 1, 0int,
{
    fold(args, data, 0, crate::dbl::u64_dbl(0))
}

/// The running fold from argument `i` on.
fn fold(args: &Vec<Expression>, data: &Data, i: usize, acc: String) -> (r: Json)
    requires
        i <= args@.len(),
    ensures
        r@ == crate::sem::sem_add(exprs_v(args@), data@, i as int, acc@),
    decreases args, args@.len() - i, 0int,
{
    if i >= args.len() {
        return finite_result(acc);
    }
    proof {
        assert(exprs_v(args@)[i as int] == args@[i as int]@);
    }
    let v = args[i].compute_with_data(data);
    match crate::logic::parse_float(&v) {
        Some(x) => fold(args, data, i + 1, crate::dbl::add_dbl(acc.as_str(), x.as_str())),
        None => Json::Null,
    }
}

/// A finite total is a number; an infinity or NaN is null.
fn finite_result(acc: String) -> (r: Json)
    ensures
        r@ == crate::sem::num_result(acc@),
{
    if crate::dbl::finite_dbl(acc.as_str()) {
        Json::Num(Num::Float(acc))
    } else {
        Json::Null
    }
}
} // verus!
