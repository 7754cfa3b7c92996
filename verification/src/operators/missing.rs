use crate::data::Data;
use crate::expression::{exprs_v, Expression};
use crate::json::{jv, jvs, Json, JsonV};
use crate::operators::{compute_arg, Operator};
use vstd::prelude::*;

verus! {

use crate::json::clone_jsons;

/// The probe keys whose lookup misses the data, in probe order. The key
/// list is the first argument where that is an array, else all arguments.
pub fn compute(args: &Vec<Expression>, data: &Data) -> (r: Json)
    ensures
        r@ == crate::sem::sem_op(Operator::Missing, exprs_v(args@), data@),
    decreases args, args@.len() + 1, 0int,
{
    let vals = eval_all(args, data, 0);
    let keys: Vec<Json> = if vals.len() > 0 && matches!(&vals[0], Json::Arr(_)) {
        match &vals[0] {
            Json::Arr(a) => {
                proof {
                    broadcast use crate::json::lemma_jv_arr;

                    assert(jvs(vals@)[0] == jv(vals@[0]));
                }
                clone_jsons(a)
            },
            _ => vals,
        }
    } else {
        vals
    };
    let out = walk(&keys, data, 0);
    let r = Json::Arr(out);
    proof {
        broadcast use crate::json::lemma_jv_arr;

        assert(jvs(keys@).subrange(0, keys@.len() as int) =~= jvs(keys@));
        assert(r@ =~= crate::sem::sem_op(Operator::Missing, exprs_v(args@), data@));
    }
    r
}

/// All arguments from `i` on, each evaluated.
fn eval_all(args: &Vec<Expression>, data: &Data, i: usize) -> (r: Vec<Json>)
    requires
        i <= args@.len(),
    ensures
        jvs(r@) == crate::sem::sem_args(exprs_v(args@), data@, i as int),
    decreases args, args@.len() - i, 0int,
{
    if i >= args.len() {
        let r: Vec<Json> = Vec::new();
        proof {
            assert(jvs(r@) =~= Seq::<JsonV>::empty());
        }
        return r;
    }
    proof {
        assert(exprs_v(args@)[i as int] == args@[i as int]@);
    }
    let head = args[i].compute_with_data(data);
    let mut rest = eval_all(args, data, i + 1);
    let ghost restv = jvs(rest@);
    rest.insert(0, head);
    proof {
        assert(jvs(rest@) =~= seq![jv(rest@[0])] + restv);
    }
    rest
}

/// The keys from `i` on whose lookup misses the data.
fn walk(keys: &Vec<Json>, data: &Data, i: usize) -> (r: Vec<Json>)
    requires
        i <= keys@.len(),
    ensures
        jvs(r@) == crate::sem::miss_list(jvs(keys@).subrange(i as int, keys@.len() as int), data@),
    decreases keys@.len() - i,
{
    let ghost tail = jvs(keys@).subrange(i as int, keys@.len() as int);
    if i >= keys.len() {
        let r: Vec<Json> = Vec::new();
        proof {
            assert(jvs(r@) =~= Seq::<JsonV>::empty());
        }
        return r;
    }
    proof {
        assert(tail[0] == jv(keys@[i as int]));
        assert(tail.subrange(1, tail.len() as int) =~= jvs(keys@).subrange(
            i + 1,
            keys@.len() as int,
        ));
    }
    let mut rest = walk(keys, data, i + 1);
    let ghost restv = jvs(rest@);
    match data.get_value(&keys[i]) {
        Some(_) => rest,
        None => {
            rest.insert(0, keys[i].clone());
            proof {
                assert(jvs(rest@) =~= seq![jv(rest@[0])] + restv);
            }
            rest
        },
    }
}
} // verus!
