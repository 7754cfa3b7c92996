use crate::data::Data;
use crate::expression::{exprs_v, Expression};
use crate::json::{jv, jvs, Json, JsonV};
use crate::operators::{compute_arg, Operator};
use vstd::prelude::*;

verus! {

/// If/then/else; with more arguments, pairs of condition/then followed by
/// one else value. Arguments past the chosen branch are not evaluated.
pub fn compute(args: &Vec<Expression>, data: &Data) -> (r: Json)
    ensures
        r@ == crate::sem::sem_op(Operator::If, exprs_v(args@), data@),
    decreases args, args@.len() + 1, 0int,
{
    if args.len() <= 1 {
        compute_arg(args, data, 0)
    } else if args.len() <= 3 {
        let condition = args[0].compute_with_data(data);
        proof {
            assert(exprs_v(args@)[0] == args@[0]@);
            assert(exprs_v(args@)[1] == args@[1]@);
        }
        if crate::logic::is_truthy(&condition) {
            args[1].compute_with_data(data)
        } else {
            compute_arg(args, data, 2)
        }
    } else {
        chain(args, data, 0)
    }
}

/// The if/then elseif/then ... else chain from pair `i` on.
fn chain(args: &Vec<Expression>, data: &Data, i: usize) -> (r: Json)
    requires
        i <= args@.len(),
    ensures
        r@ == crate::sem::sem_ifchain(exprs_v(args@), data@, i as int),
    decreases args, args@.len() - i, 0int,
{
    if i >= args.len() {
        return Json::Null;
    }
    proof {
        assert(exprs_v(args@)[i as int] == args@[i as int]@);
    }
    if i == args.len() - 1 {
        return args[i].compute_with_data(data);
    }
    let condition = args[i].compute_with_data(data);
    if crate::logic::is_truthy(&condition) {
        proof {
            assert(exprs_v(args@)[i + 1] == args@[i + 1]@);
        }
        args[i + 1].compute_with_data(data)
    } else {
        chain(args, data, i + 2)
    }
}
} // verus!
