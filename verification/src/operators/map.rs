use crate::data::Data;
use crate::expression::{exprs_v, Expression};
use crate::json::{jv, jvs, Json, JsonV};
use crate::operators::{compute_arg, Operator};
use vstd::prelude::*;

verus! {

/// Applies the body expression to every element of the computed array,
/// the element standing as the data scope; a missing or non-array first
/// argument means no elements.
pub fn compute(args: &Vec<Expression>, data: &Data) -> (r: Json)
    ensures
        r@ == crate::sem::sem_op(Operator::MapArray, exprs_v(args@), data@),
    decreases args, args@.len() + 1, 0int,
{
    let arrv = compute_arg(args, data, 0);
    let elems: Vec<Json> = match &arrv {
        Json::Arr(a) => {
            proof {
                broadcast use crate::json::lemma_jv_arr;

            }
            crate::json::clone_jsons(a)
        },
        _ => Vec::new(),
    };
    proof {
        assert(jvs(Seq::<Json>::empty()) =~= Seq::<JsonV>::empty());
    }
    if args.len() < 2 {
        let mut out: Vec<Json> = Vec::new();
        let mut i: usize = 0;
        while i < elems.len()
            invariant
                0 <= i <= elems@.len(),
                out@.len() == i as int,
                forall|k: int| 0 <= k < i ==> jv(out@[k]) == JsonV::Null,
            decreases elems@.len() - i,
        {
            out.push(Json::Null);
            i = i + 1;
        }
        let r = Json::Arr(out);
        proof {
            broadcast use crate::json::lemma_jv_arr;

            assert(jvs(out@) =~= Seq::new(jvs(elems@).len(), |k: int| JsonV::Null));
            assert(r@ =~= crate::sem::sem_op(Operator::MapArray, exprs_v(args@), data@));
        }
        r
    } else {
        proof {
            assert(exprs_v(args@)[1] == args@[1]@);
        }
        let out = fold(&args[1], &elems, 0);
        let r = Json::Arr(out);
        proof {
            broadcast use crate::json::lemma_jv_arr;

            assert(r@ =~= crate::sem::sem_op(Operator::MapArray, exprs_v(args@), data@));
        }
        r
    }
}

/// The body applied to each element from `i` on.
fn fold(body: &Expression, elems: &Vec<Json>, i: usize) -> (r: Vec<Json>)
    requires
        i <= elems@.len(),
    ensures
        jvs(r@) == crate::sem::sem_map_fold(body@, jvs(elems@), i as int),
    decreases body, elems@.len() - i, 0int,
{
    if i >= elems.len() {
        let r: Vec<Json> = Vec::new();
        proof {
            assert(jvs(r@) =~= Seq::<JsonV>::empty());
        }
        return r;
    }
    proof {
        assert(jvs(elems@)[i as int] == jv(elems@[i as int]));
    }
    let scope = Data::from_json(&elems[i]);
    let head = body.compute_with_data(&scope);
    let mut rest = fold(body, elems, i + 1);
    let ghost restv = jvs(rest@);
    rest.insert(0, head);
    proof {
        assert(jvs(rest@) =~= seq![jv(rest@[0])] + restv);
    }
    rest
}
} // verus!
