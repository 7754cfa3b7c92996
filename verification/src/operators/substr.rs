use crate::data::Data;
use crate::expression::{exprs_v, Expression};
use crate::json::{jv, jvs, Json, JsonV};
use crate::operators::{compute_arg, Operator};
use vstd::prelude::*;

verus! {

use vstd::string::StrSliceExecFns;
use vstd::string::StringExecFns;

/// A portion of the first argument's text: the start counts from the end
/// where negative, and a negative length stops that many characters before
/// the end. A missing first argument reads as the text `undefined`.
pub fn compute(args: &Vec<Expression>, data: &Data) -> (r: Json)
    ensures
        r@ == crate::sem::sem_op(Operator::Substr, exprs_v(args@), data@),
    decreases args, args@.len() + 1, 0int,
{
    let a: String = if args.len() >= 1 {
        proof {
            assert(exprs_v(args@)[0] == args@[0]@);
        }
        let v = args[0].compute_with_data(data);
        crate::logic::coerce_to_str(&v)
    } else {
        String::from_str("undefined")
    };
    let b: i64 = if args.len() >= 2 {
        proof {
            assert(exprs_v(args@)[1] == args@[1]@);
        }
        let v = args[1].compute_with_data(data);
        match crate::logic::coerce_to_f64(&v) {
            Some(x) => crate::dbl::floor_dbl(x.as_str()),
            None => 0,
        }
    } else {
        0
    };
    let c: Option<i64> = if args.len() >= 3 {
        proof {
            assert(exprs_v(args@)[2] == args@[2]@);
        }
        let v = args[2].compute_with_data(data);
        match crate::logic::coerce_to_f64(&v) {
            Some(x) => Some(crate::dbl::floor_dbl(x.as_str())),
            None => None,
        }
    } else {
        None
    };
    let n = a.unicode_len();
    let n1 = n as i128;
    let b1 = b as i128;
    let start: i128 = if b1 >= 0 {
        b1
    } else if n1 + b1 > 0 {
        n1 + b1
    } else {
        0
    };
    let from: i128 = if start < n1 {
        start
    } else {
        n1
    };
    let upto: i128 = match c {
        None => n1,
        Some(li) => {
            let li1 = li as i128;
            let take: i128 = if li1 >= 0 {
                li1
            } else if n1 - start - (-li1) > 0 {
                n1 - start - (-li1)
            } else {
                0
            };
            if from + take < n1 {
                from + take
            } else {
                n1
            }
        },
    };
    let s = a.as_str().substring_char(from as usize, upto as usize).to_owned();
    proof {
        assert(s@ =~= crate::sem::substr_of(
            a@,
            b as int,
            (match c {
                Some(li) => Some(li as int),
                None => None,
            }),
        ));
    }
    Json::Str(s)
}
} // verus!
