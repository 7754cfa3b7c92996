use crate::data::Data;
use crate::expression::{exprs_v, Expression};
use crate::json::{jv, jvs, Json, JsonV};
use crate::operators::{compute_arg, Operator};
use vstd::prelude::*;

verus! {

use crate::json::Entry;
use vstd::string::StringExecFns;

/// Folds the computed array to one value through the body expression; the
/// body's scope holds the current element and the total so far.
pub fn compute(args: &Vec<Expression>, data: &Data) -> (r: Json)
    ensures
        r@ == crate::sem::sem_op(Operator::Reduce, exprs_v(args@), data@),
    decreases args, args@.len() + 1, 0int,
{
    let initial = if args.len() >= 3 {
        proof {
            assert(exprs_v(args@)[2] == args@[2]@);
        }
        args[2].compute_with_data(data)
    } else {
        Json::Null
    };
    let arrv = compute_arg(args, data, 0);
    match &arrv {
        Json::Arr(a) => {
            proof {
                broadcast use crate::json::lemma_jv_arr;

            }
            if args.len() < 2 {
                if a.len() == 0 {
                    initial
                } else {
                    Json::Null
                }
            } else {
                proof {
                    assert(exprs_v(args@)[1] == args@[1]@);
                }
                fold(&args[1], a, 0, initial)
            }
        },
        _ => initial,
    }
}

/// The left fold of the body over the elements from `i` on.
fn fold(body: &Expression, elems: &Vec<Json>, i: usize, acc: Json) -> (r: Json)
    requires
        i <= elems@.len(),
    ensures
        r@ == crate::sem::sem_reduce_fold(body@, jvs(elems@), i as int, acc@),
    decreases body, elems@.len() - i, 0int,
{
    if i >= elems.len() {
        return acc;
    }
    let ghost accv = acc@;
    let mut entries: Vec<Entry> = Vec::new();
    entries.push(Entry { key: String::from_str("current"), value: elems[i].clone() });
    entries.push(Entry { key: String::from_str("accumulator"), value: acc });
    let scope = Json::Obj(entries);
    proof {
        broadcast use crate::json::lemma_jv_obj;

        assert(jvs(elems@)[i as int] == jv(elems@[i as int]));
        assert(crate::json::evs(entries@) =~= seq![
            (("current")@, jv(elems@[i as int])),
            (("accumulator")@, accv),
        ]);
        assert(scope@ == crate::sem::reduce_scope(jvs(elems@)[i as int], accv));
    }
    let next = body.compute_with_data(&Data::from_json(&scope));
    fold(body, elems, i + 1, next)
}
} // verus!
