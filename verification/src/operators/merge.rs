use crate::data::Data;
use crate::expression::{exprs_v, Expression};
use crate::json::{jv, jvs, Json, JsonV};
use crate::operators::{compute_arg, Operator};
use vstd::prelude::*;

verus! {

use crate::json::clone_jsons;

/// Merges the arguments into one array, splicing array arguments in and
/// appending everything else as a single element.
pub fn compute(args: &Vec<Expression>, data: &Data) -> (r: Json)
    ensures
        r@ == crate::sem::sem_op(Operator::Merge, exprs_v(args@), data@),
    decreases args, args@.len() + 1, 0int,
{
    let out = fold(args, data, 0);
    let r = Json::Arr(out);
    proof {
        broadcast use crate::json::lemma_jv_arr;

        assert(r@ =~= crate::sem::sem_op(Operator::Merge, exprs_v(args@), data@));
    }
    r
}

/// The merged elements from argument `i` on.
fn fold(args: &Vec<Expression>, data: &Data, i: usize) -> (r: Vec<Json>)
    requires
        i <= args@.len(),
    ensures
        jvs(r@) == crate::sem::sem_merge(exprs_v(args@), data@, i as int),
    decreases args, args@.len() - i, 0int,
{
    if i >= args.len() {
        let r: Vec<Json> = Vec::new();
        proof {
            assert(jvs(r@) =~= Seq::<JsonV>::empty());
        }
        return r;
    }
    proof {
        assert(exprs_v(args@)[i as int] == args@[i as int]@);
    }
    let v = args[i].compute_with_data(data);
    let mut head: Vec<Json> = match &v {
        Json::Arr(a) => clone_jsons(a),
        _ => {
            let mut one: Vec<Json> = Vec::new();
            one.push(v);
            one
        },
    };
    let ghost headv = jvs(head@);
    let mut rest = fold(args, data, i + 1);
    head.append(&mut rest);
    proof {
        broadcast use crate::json::lemma_jv_arr;

        assert(jvs(head@) =~= headv + crate::sem::sem_merge(exprs_v(args@), data@, i + 1));
    }
    head
}
} // verus!
