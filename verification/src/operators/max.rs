use crate::data::Data;
use crate::expression::{exprs_v, Expression};
use crate::json::{jv, jvs, Json, JsonV};
use crate::operators::{compute_arg, Operator};
use vstd::prelude::*;

verus! {

use crate::json::Num;

/// The largest of the arguments, each read as a number; null where one
/// cannot be read or there are none.
pub fn compute(args: &Vec<Expression>, data: &Data) -> (r: Json)
    ensures
        r@ == crate::sem::sem_op(Operator::Max, exprs_v(args@), data@),
    decreases args, args@.len() + 1, 0int,
{
    fold(args, data, 0, None)
}

/// The running best value from argument `i` on.
fn fold(args: &Vec<Expression>, data: &Data, i: usize, acc: Option<String>) -> (r: Json)
    requires
        i <= args@.len(),
    ensures
        r@ == crate::sem::sem_max(exprs_v(args@), data@, i as int, (match acc {
            Some(m) => Some(m@),
            None => None,
        })),
    decreases args, args@.len() - i, 0int,
{
    if i >= args.len() {
        return match acc {
            None => Json::Null,
            Some(m) => {
                if crate::dbl::finite_dbl(m.as_str()) {
                    Json::Num(Num::Float(m))
                } else {
                    Json::Null
                }
            },
        };
    }
    proof {
        assert(exprs_v(args@)[i as int] == args@[i as int]@);
    }
    let v = args[i].compute_with_data(data);
    match crate::logic::coerce_to_f64(&v) {
        None => Json::Null,
        Some(x) => {
            let next = match acc {
                None => Some(x),
                Some(m) => {
                    if crate::dbl::lt_dbl(m.as_str(), x.as_str()) {
                        Some(x)
                    } else {
                        Some(m)
                    }
                },
            };
            fold(args, data, i + 1, next)
        },
    }
}
} // verus!
