use crate::data::Data;
use crate::expression::{exprs_v, Expression};
use crate::json::{jv, jvs, Json, JsonV};
use crate::operators::{compute_arg, Operator};
use vstd::prelude::*;

verus! {

use vstd::string::StringExecFns;

/// Substring or membership: a string second argument is searched for the
/// first argument's text; an array is searched for a strictly equal element.
pub fn compute(args: &Vec<Expression>, data: &Data) -> (r: Json)
    ensures
        r@ == crate::sem::sem_op(Operator::In, exprs_v(args@), data@),
    decreases args, args@.len() + 1, 0int,
{
    if args.len() == 0 {
        return Json::Bool(false);
    }
    proof {
        assert(exprs_v(args@)[0] == args@[0]@);
    }
    let a = args[0].compute_with_data(data);
    if args.len() < 2 {
        return Json::Bool(false);
    }
    proof {
        assert(exprs_v(args@)[1] == args@[1]@);
    }
    let b = args[1].compute_with_data(data);
    let r = match &b {
        Json::Str(s) => {
            let needle = crate::logic::coerce_to_str(&a);
            Json::Bool(crate::strings::has_str(s.as_str(), needle.as_str()))
        },
        Json::Arr(elems) => {
            proof {
                broadcast use crate::json::lemma_jv_arr;

                assert(jvs(elems@).subrange(0, elems@.len() as int) =~= jvs(elems@));
            }
            Json::Bool(any_strict_eq(elems, &a, 0))
        },
        _ => Json::Bool(false),
    };
    proof {
        assert(r@ =~= crate::sem::sem_op(Operator::In, exprs_v(args@), data@));
    }
    r
}

/// Whether some element from `i` on is strictly equal to the value.
fn any_strict_eq(elems: &Vec<Json>, a: &Json, i: usize) -> (r: bool)
    requires
        i <= elems@.len(),
    ensures
        r == crate::sem::in_arr_any(
            jvs(elems@).subrange(i as int, elems@.len() as int),
            a@,
        ),
    decreases elems@.len() - i,
{
    let ghost tail = jvs(elems@).subrange(i as int, elems@.len() as int);
    if i >= elems.len() {
        return false;
    }
    proof {
        assert(tail[0] == jv(elems@[i as int]));
        assert(tail.subrange(1, tail.len() as int) =~= jvs(elems@).subrange(
            i + 1,
            elems@.len() as int,
        ));
    }
    if crate::logic::is_strict_equal(&elems[i], a) {
        true
    } else {
        any_strict_eq(elems, a, i + 1)
    }
}
} // verus!
