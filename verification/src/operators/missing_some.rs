use crate::data::Data;
use crate::expression::{exprs_v, Expression};
use crate::json::{jv, jvs, Json, JsonV};
use crate::operators::{compute_arg, Operator};
use vstd::prelude::*;

verus! {

/// Takes a minimum count and an array of keys: empty the moment enough
/// keys are present, else the missing keys in probe order.
pub fn compute(args: &Vec<Expression>, data: &Data) -> (r: Json)
    ensures
        r@ == crate::sem::sem_op(Operator::MissingSome, exprs_v(args@), data@),
    decreases args, args@.len() + 1, 0int,
{
    let m = compute_arg(args, data, 0);
    let min: u64 = match crate::logic::coerce_to_f64(&m) {
        Some(x) => crate::dbl::ceil_u64_dbl(x.as_str()),
        None => 0,
    };
    let keysv = compute_arg(args, data, 1);
    match &keysv {
        Json::Arr(keys) => {
            proof {
                broadcast use crate::json::lemma_jv_arr;

            }
            if min == 0 {
                empty_array()
            } else {
                let acc: Vec<Json> = Vec::new();
                proof {
                    assert(jvs(acc@) =~= Seq::<JsonV>::empty());
                    assert(jvs(keys@).subrange(0, keys@.len() as int) =~= jvs(keys@));
                }
                let out = walk(keys, data, 0, min, acc);
                let r = Json::Arr(out);
                proof {
                    broadcast use crate::json::lemma_jv_arr;

                    assert(r@ =~= crate::sem::sem_op(
                        Operator::MissingSome,
                        exprs_v(args@),
                        data@,
                    ));
                }
                r
            }
        },
        _ => empty_array(),
    }
}

/// An empty JSON array.
fn empty_array() -> (r: Json)
    ensures
        r@ == JsonV::Arr(Seq::<JsonV>::empty()),
{
    let out: Vec<Json> = Vec::new();
    let r = Json::Arr(out);
    proof {
        assert(r@ matches JsonV::Arr(s) && s =~= Seq::<JsonV>::empty());
        assert(r@ =~= JsonV::Arr(Seq::<JsonV>::empty()));
    }
    r
}

/// Walks the keys from `i` on with a countdown of still-needed present
/// keys, accumulating the missing ones.
fn walk(keys: &Vec<Json>, data: &Data, i: usize, remaining: u64, acc: Vec<Json>) -> (r: Vec<Json>)
    requires
        i <= keys@.len(),
        remaining >= 1,
    ensures
        jvs(r@) == crate::sem::msome_walk(
            jvs(keys@).subrange(i as int, keys@.len() as int),
            data@,
            remaining,
            jvs(acc@),
        ),
    decreases keys@.len() - i,
{
    let ghost tail = jvs(keys@).subrange(i as int, keys@.len() as int);
    if i >= keys.len() {
        return acc;
    }
    proof {
        assert(tail[0] == jv(keys@[i as int]));
        assert(tail.subrange(1, tail.len() as int) =~= jvs(keys@).subrange(
            i + 1,
            keys@.len() as int,
        ));
    }
    match data.get_value(&keys[i]) {
        Some(_) => {
            if remaining <= 1 {
                let r: Vec<Json> = Vec::new();
                proof {
                    assert(jvs(r@) =~= Seq::<JsonV>::empty());
                }
                r
            } else {
                walk(keys, data, i + 1, remaining - 1, acc)
            }
        },
        None => {
            let ghost accv = jvs(acc@);
            let mut acc2 = acc;
            acc2.push(keys[i].clone());
            proof {
                assert(jvs(acc2@) =~= accv + seq![jv(keys@[i as int])]);
            }
            walk(keys, data, i + 1, remaining, acc2)
        },
    }
}
} // verus!
