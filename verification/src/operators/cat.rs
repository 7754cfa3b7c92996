use crate::data::Data;
use crate::expression::{exprs_v, Expression};
use crate::json::{jv, jvs, Json, JsonV};
use crate::operators::{compute_arg, Operator};
use vstd::prelude::*;

verus! {

use vstd::string::StringExecFns;

/// Concatenates all arguments, each printed as text.
pub fn compute(args: &Vec<Expression>, data: &Data) -> (r: Json)
    ensures
        r@ == crate::sem::sem_op(Operator::Cat, exprs_v(args@), data@),
    decreases args, args@.len() + 1, 0int,
{
    Json::Str(fold(args, data, 0))
}

/// The arguments from `i` on, printed and joined.
fn fold(args: &Vec<Expression>, data: &Data, i: usize) -> (r: String)
    requires
        i <= args@.len(),
    ensures
        r@ == crate::sem::sem_cat(exprs_v(args@), data@, i as int),
    decreases args, args@.len() - i, 0int,
{
    if i >= args.len() {
        return String::new();
    }
    proof {
        assert(exprs_v(args@)[i as int] == args@[i as int]@);
    }
    let v = args[i].compute_with_data(data);
    let mut s = crate::logic::coerce_to_str(&v);
    let rest = fold(args, data, i + 1);
    s.append(rest.as_str());
    s
}
} // verus!
