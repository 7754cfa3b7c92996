use crate::data::Data;
use crate::expression::{exprs_v, Expression};
use crate::json::{jv, jvs, Json, JsonV};
use crate::operators::{compute_arg, Operator};
use vstd::prelude::*;

verus! {

use vstd::string::StrSliceExecFns;
use vstd::string::StringExecFns;

/// Whether the body is truthy for every element of the computed array;
/// false on an empty array. A string iterates character by character.
pub fn compute(args: &Vec<Expression>, data: &Data) -> (r: Json)
    ensures
        r@ == crate::sem::sem_op(Operator::AllArray, exprs_v(args@), data@),
    decreases args, args@.len() + 1, 0int,
{
    let arrv = compute_arg(args, data, 0);
    let r = match &arrv {
        Json::Arr(a) => {
            proof {
                broadcast use crate::json::lemma_jv_arr;

            }
            if a.len() == 0 || args.len() < 2 {
                Json::Bool(false)
            } else {
                proof {
                    assert(exprs_v(args@)[1] == args@[1]@);
                }
                Json::Bool(fold(&args[1], a, 0))
            }
        },
        Json::Str(s) => {
            let elems = char_elems(s);
            if elems.len() == 0 || args.len() < 2 {
                Json::Bool(false)
            } else {
                proof {
                    assert(exprs_v(args@)[1] == args@[1]@);
                }
                Json::Bool(fold(&args[1], &elems, 0))
            }
        },
        _ => Json::Bool(false),
    };
    proof {
        assert(r@ =~= crate::sem::sem_op(Operator::AllArray, exprs_v(args@), data@));
    }
    r
}

/// Each character of the string as a one-character string value.
fn char_elems(s: &String) -> (r: Vec<Json>)
    ensures
        jvs(r@) == crate::sem::str_elems(s@),
{
    let len = s.unicode_len();
    let mut out: Vec<Json> = Vec::new();
    let mut i: usize = 0;
    while i < len
        invariant
            0 <= i <= len,
            len == s@.len(),
            out@.len() == i as int,
            forall|k: int| 0 <= k < i ==> jv(out@[k]) == JsonV::Str(seq![s@[k]]),
        decreases len - i,
    {
        let c = s.as_str().substring_char(i, i + 1).to_owned();
        proof {
            assert(c@ =~= seq![s@[i as int]]);
        }
        out.push(Json::Str(c));
        i = i + 1;
    }
    proof {
        assert(jvs(out@) =~= crate::sem::str_elems(s@));
    }
    out
}

/// Whether the body is truthy for every element from `i` on.
fn fold(body: &Expression, elems: &Vec<Json>, i: usize) -> (r: bool)
    requires
        i <= elems@.len(),
    ensures
        r == crate::sem::sem_all_fold(body@, jvs(elems@), i as int),
    decreases body, elems@.len() - i, 0int,
{
    if i >= elems.len() {
        return true;
    }
    proof {
        assert(jvs(elems@)[i as int] == jv(elems@[i as int]));
    }
    let v = body.compute_with_data(&Data::from_json(&elems[i]));
    if !crate::logic::is_truthy(&v) {
        false
    } else {
        fold(body, elems, i + 1)
    }
}
} // verus!
