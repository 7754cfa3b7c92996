use crate::data::Data;
use crate::expression::{exprs_v, Expression};
use crate::json::{jv, jvs, Json, JsonV};
use crate::operators::{compute_arg, Operator};
use vstd::prelude::*;

verus! {

/// Whether the body is truthy for no element of the computed array; true
/// on an empty or non-array first argument.
pub fn compute(args: &Vec<Expression>, data: &Data) -> (r: Json)
    ensures
        r@ == crate::sem::sem_op(Operator::NoneArray, exprs_v(args@), data@),
    decreases args, args@.len() + 1, 0int,
{
    let arrv = compute_arg(args, data, 0);
    match &arrv {
        Json::Arr(a) => {
            proof {
                broadcast use crate::json::lemma_jv_arr;

            }
            if args.len() < 2 {
                Json::Bool(true)
            } else {
                proof {
                    assert(exprs_v(args@)[1] == args@[1]@);
                }
                Json::Bool(!fold(&args[1], a, 0))
            }
        },
        _ => Json::Bool(true),
    }
}

/// Whether the body is truthy for at least one element from `i` on.
fn fold(body: &Expression, elems: &Vec<Json>, i: usize) -> (r: bool)
    requires
        i <= elems@.len(),
    ensures
        r == crate::sem::sem_some_fold(body@, jvs(elems@), i as int),
    decreases body, elems@.len() - i, 0int,
{
    if i >= elems.len() {
        return false;
    }
    proof {
        assert(jvs(elems@)[i as int] == jv(elems@[i as int]));
    }
    let v = body.compute_with_data(&Data::from_json(&elems[i]));
    if crate::logic::is_truthy(&v) {
        true
    } else {
        fold(body, elems, i + 1)
    }
}
} // verus!
