//! The meaning of a rule: a total, recursive evaluation function over the
//! mathematical shapes of expressions and data. Every operator's reducer is
//! written out here; the executable evaluator is proved against these
//! functions.
use crate::data::lookup;
use crate::dbl::{
    dbl_add, dbl_ceil_u64, dbl_div, dbl_eq, dbl_finite, dbl_floor, dbl_lt, dbl_mul, dbl_of_i64,
    dbl_of_u64, dbl_rem, dbl_sub,
};
use crate::expression::ExprV;
use crate::json::{JsonV, NumV};
use crate::logic::{abs_eq, le, lt, num_of, pfloat_of, str_of, strict_eq, truthy};
use crate::operators::Operator;
use crate::strings::str_has;
use vstd::prelude::*;

verus! {

/// A finite arithmetic result is a number; an infinity or NaN is null.
pub open spec fn num_result(s: Seq<char>) -> JsonV {
    if dbl_finite(s) {
        JsonV::Num(NumV::Float(s))
    } else {
        JsonV::Null
    }
}

/// Each character of the string as a one-character string value.
pub open spec fn str_elems(s: Seq<char>) -> Seq<JsonV> {
    Seq::new(s.len(), |i: int| JsonV::Str(seq![s[i]]))
}

/// The key list `missing` probes: the first value where it is an array,
/// the whole argument list otherwise.
pub open spec fn keys_of(vals: Seq<JsonV>) -> Seq<JsonV> {
    if vals.len() > 0 && vals[0] is Arr {
        vals[0]->Arr_0
    } else {
        vals
    }
}

/// The keys whose lookup misses the data, in probe order.
pub open spec fn miss_list(keys: Seq<JsonV>, d: JsonV) -> Seq<JsonV>
    decreases keys.len(),
{
    if keys.len() == 0 {
        Seq::empty()
    } else {
        let rest = miss_list(keys.subrange(1, keys.len() as int), d);
        if lookup(d, keys[0]) is None {
            seq![keys[0]] + rest
        } else {
            rest
        }
    }
}

/// Walks the keys of `missing_some` with a countdown of still-needed
/// present keys: the moment it reaches zero the result is empty, else the
/// missing keys accumulate.
pub open spec fn msome_walk(keys: Seq<JsonV>, d: JsonV, remaining: u64, acc: Seq<JsonV>) -> Seq<
    JsonV,
>
    decreases keys.len(),
{
    if keys.len() == 0 {
        acc
    } else {
        let rest = keys.subrange(1, keys.len() as int);
        if lookup(d, keys[0]) is Some {
            if remaining <= 1 {
                Seq::empty()
            } else {
                msome_walk(rest, d, (remaining - 1) as u64, acc)
            }
        } else {
            msome_walk(rest, d, remaining, acc + seq![keys[0]])
        }
    }
}

/// Whether some element of the array is strictly equal to the value.
pub open spec fn in_arr_any(elems: Seq<JsonV>, a: JsonV) -> bool
    decreases elems.len(),
{
    if elems.len() == 0 {
        false
    } else {
        strict_eq(elems[0], a) || in_arr_any(elems.subrange(1, elems.len() as int), a)
    }
}

/// The characters `substr` keeps: `start` counts from the end where
/// negative, and a negative `limit` stops that many characters before the
/// end.
pub open spec fn substr_of(s: Seq<char>, b: int, c: Option<int>) -> Seq<char> {
    let n = s.len() as int;
    let start = if b >= 0 {
        b
    } else if n + b > 0 {
        n + b
    } else {
        0
    };
    let from = if start < n {
        start
    } else {
        n
    };
    match c {
        None => s.subrange(from, n),
        Some(limit) => {
            let take = if limit >= 0 {
                limit
            } else if n - start - (-limit) > 0 {
                n - start - (-limit)
            } else {
                0
            };
            let upto = if from + take < n {
                from + take
            } else {
                n
            };
            s.subrange(from, upto)
        },
    }
}

/// The value an expression reduces to against the given data.
pub open spec fn sem_expr(e: ExprV, d: JsonV) -> JsonV
    decreases e, 0int, 0int,
{
    match e {
        ExprV::Const(v) => v,
        ExprV::Comp(op, args) => sem_op(op, args, d),
    }
}

/// The argument at `i`, evaluated; null where there is none.
pub open spec fn arg_or_null(args: Seq<ExprV>, d: JsonV, i: int) -> JsonV
    decreases args, 0int, 0int,
{
    if 0 <= i < args.len() {
        sem_expr(args[i], d)
    } else {
        JsonV::Null
    }
}

/// The `var` operator: an absent, null or empty-string path gives the whole
/// data; a miss gives the second argument, or null without one.
pub open spec fn sem_var(args: Seq<ExprV>, d: JsonV) -> JsonV
    decreases args, 1int, 0int,
{
    let arg = arg_or_null(args, d, 0);
    if arg is Null {
        d
    } else if arg matches JsonV::Str(s) && s.len() == 0 {
        d
    } else {
        match lookup(d, arg) {
            Some(v) => v,
            None => arg_or_null(args, d, 1),
        }
    }
}

/// The if/then elseif/then ... else chain from pair `i` on.
pub open spec fn sem_ifchain(args: Seq<ExprV>, d: JsonV, i: int) -> JsonV
    decreases args, args.len() - i + 1, 0int,
{
    if !(0 <= i < args.len()) {
        JsonV::Null
    } else if i == args.len() - 1 {
        sem_expr(args[i], d)
    } else if truthy(sem_expr(args[i], d)) {
        sem_expr(args[i + 1], d)
    } else {
        sem_ifchain(args, d, i + 2)
    }
}

/// `or` from argument `i` on: the first truthy argument or the last.
pub open spec fn sem_or(args: Seq<ExprV>, d: JsonV, i: int) -> JsonV
    decreases args, args.len() - i + 1, 0int,
{
    if !(0 <= i < args.len()) {
        JsonV::Null
    } else {
        let v = sem_expr(args[i], d);
        if truthy(v) || i == args.len() - 1 {
            v
        } else {
            sem_or(args, d, i + 1)
        }
    }
}

/// `and` from argument `i` on: the first falsy argument or the last.
pub open spec fn sem_and(args: Seq<ExprV>, d: JsonV, i: int) -> JsonV
    decreases args, args.len() - i + 1, 0int,
{
    if !(0 <= i < args.len()) {
        JsonV::Null
    } else {
        let v = sem_expr(args[i], d);
        if !truthy(v) || i == args.len() - 1 {
            v
        } else {
            sem_and(args, d, i + 1)
        }
    }
}

/// All arguments from `i` on, each evaluated.
pub open spec fn sem_args(args: Seq<ExprV>, d: JsonV, i: int) -> Seq<JsonV>
    decreases args, args.len() - i + 1, 0int,
{
    if !(0 <= i < args.len()) {
        Seq::empty()
    } else {
        seq![sem_expr(args[i], d)] + sem_args(args, d, i + 1)
    }
}

/// The sum of the arguments from `i` on over the running total, null where
/// an argument has no `parseFloat` reading, a number only if finite.
pub open spec fn sem_add(args: Seq<ExprV>, d: JsonV, i: int, acc: Seq<char>) -> JsonV
    decreases args, args.len() - i + 1, 0int,
{
    if !(0 <= i < args.len()) {
        num_result(acc)
    } else {
        match pfloat_of(sem_expr(args[i], d)) {
            Some(x) => sem_add(args, d, i + 1, dbl_add(acc, x)),
            None => JsonV::Null,
        }
    }
}

/// The product of the arguments from `i` on over the running total.
pub open spec fn sem_mul(args: Seq<ExprV>, d: JsonV, i: int, acc: Seq<char>) -> JsonV
    decreases args, args.len() - i + 1, 0int,
{
    if !(0 <= i < args.len()) {
        num_result(acc)
    } else {
        match pfloat_of(sem_expr(args[i], d)) {
            Some(x) => sem_mul(args, d, i + 1, dbl_mul(acc, x)),
            None => JsonV::Null,
        }
    }
}

/// The smallest argument from `i` on, each read as a number; null where one
/// has no reading or there are none at all.
pub open spec fn sem_min(args: Seq<ExprV>, d: JsonV, i: int, acc: Option<Seq<char>>) -> JsonV
    decreases args, args.len() - i + 1, 0int,
{
    if !(0 <= i < args.len()) {
        match acc {
            None => JsonV::Null,
            Some(m) => num_result(m),
        }
    } else {
        match num_of(sem_expr(args[i], d)) {
            None => JsonV::Null,
            Some(x) => sem_min(
                args,
                d,
                i + 1,
                match acc {
                    None => Some(x),
                    Some(m) => if dbl_lt(x, m) {
                        Some(x)
                    } else {
                        Some(m)
                    },
                },
            ),
        }
    }
}

/// The largest argument from `i` on, each read as a number.
pub open spec fn sem_max(args: Seq<ExprV>, d: JsonV, i: int, acc: Option<Seq<char>>) -> JsonV
    decreases args, args.len() - i + 1, 0int,
{
    if !(0 <= i < args.len()) {
        match acc {
            None => JsonV::Null,
            Some(m) => num_result(m),
        }
    } else {
        match num_of(sem_expr(args[i], d)) {
            None => JsonV::Null,
            Some(x) => sem_max(
                args,
                d,
                i + 1,
                match acc {
                    None => Some(x),
                    Some(m) => if dbl_lt(m, x) {
                        Some(x)
                    } else {
                        Some(m)
                    },
                },
            ),
        }
    }
}

/// The arguments from `i` on, printed and concatenated.
pub open spec fn sem_cat(args: Seq<ExprV>, d: JsonV, i: int) -> Seq<char>
    decreases args, args.len() - i + 1, 0int,
{
    if !(0 <= i < args.len()) {
        Seq::empty()
    } else {
        str_of(sem_expr(args[i], d)) + sem_cat(args, d, i + 1)
    }
}

/// The arguments from `i` on, arrays spliced in, everything else appended
/// as a single element.
pub open spec fn sem_merge(args: Seq<ExprV>, d: JsonV, i: int) -> Seq<JsonV>
    decreases args, args.len() - i + 1, 0int,
{
    if !(0 <= i < args.len()) {
        Seq::empty()
    } else {
        let v = sem_expr(args[i], d);
        (match v {
            JsonV::Arr(e) => e,
            _ => seq![v],
        }) + sem_merge(args, d, i + 1)
    }
}

/// The body applied to each element from `i` on, the element as the scope.
pub open spec fn sem_map_fold(body: ExprV, elems: Seq<JsonV>, i: int) -> Seq<JsonV>
    decreases body, elems.len() - i, 0int,
{
    if !(0 <= i < elems.len()) {
        Seq::empty()
    } else {
        seq![sem_expr(body, elems[i])] + sem_map_fold(body, elems, i + 1)
    }
}

/// The elements from `i` on for which the body is truthy in their scope.
pub open spec fn sem_filter_fold(body: ExprV, elems: Seq<JsonV>, i: int) -> Seq<JsonV>
    decreases body, elems.len() - i, 0int,
{
    if !(0 <= i < elems.len()) {
        Seq::empty()
    } else {
        let rest = sem_filter_fold(body, elems, i + 1);
        if truthy(sem_expr(body, elems[i])) {
            seq![elems[i]] + rest
        } else {
            rest
        }
    }
}

/// The scope a `reduce` body sees: the current element and the total so far.
pub open spec fn reduce_scope(current: JsonV, accumulator: JsonV) -> JsonV {
    JsonV::Obj(seq![(("current")@, current), (("accumulator")@, accumulator)])
}

/// The left fold of the body over the elements from `i` on.
pub open spec fn sem_reduce_fold(body: ExprV, elems: Seq<JsonV>, i: int, acc: JsonV) -> JsonV
    decreases body, elems.len() - i, 0int,
{
    if !(0 <= i < elems.len()) {
        acc
    } else {
        sem_reduce_fold(body, elems, i + 1, sem_expr(body, reduce_scope(elems[i], acc)))
    }
}

/// Whether the body is truthy for every element from `i` on.
pub open spec fn sem_all_fold(body: ExprV, elems: Seq<JsonV>, i: int) -> bool
    decreases body, elems.len() - i, 0int,
{
    if !(0 <= i < elems.len()) {
        true
    } else {
        truthy(sem_expr(body, elems[i])) && sem_all_fold(body, elems, i + 1)
    }
}

/// Whether the body is truthy for at least one element from `i` on.
pub open spec fn sem_some_fold(body: ExprV, elems: Seq<JsonV>, i: int) -> bool
    decreases body, elems.len() - i, 0int,
{
    if !(0 <= i < elems.len()) {
        false
    } else {
        truthy(sem_expr(body, elems[i])) || sem_some_fold(body, elems, i + 1)
    }
}

/// What an operator applied to its argument expressions reduces to.
pub open spec fn sem_op(op: Operator, args: Seq<ExprV>, d: JsonV) -> JsonV
    decreases args, args.len() + 2, 0int,
{
    match op {
        Operator::Equal => JsonV::Bool(abs_eq(arg_or_null(args, d, 0), arg_or_null(args, d, 1))),
        Operator::NotEqual => JsonV::Bool(
            !abs_eq(arg_or_null(args, d, 0), arg_or_null(args, d, 1)),
        ),
        Operator::StrictEqual => JsonV::Bool(
            strict_eq(arg_or_null(args, d, 0), arg_or_null(args, d, 1)),
        ),
        Operator::StrictNotEqual => JsonV::Bool(
            !strict_eq(arg_or_null(args, d, 0), arg_or_null(args, d, 1)),
        ),
        Operator::Variable => sem_var(args, d),
        Operator::Negation => JsonV::Bool(!truthy(arg_or_null(args, d, 0))),
        Operator::DoubleNegation => JsonV::Bool(truthy(arg_or_null(args, d, 0))),
        Operator::If => {
            if args.len() <= 1 {
                arg_or_null(args, d, 0)
            } else if args.len() <= 3 {
                if truthy(sem_expr(args[0], d)) {
                    sem_expr(args[1], d)
                } else {
                    arg_or_null(args, d, 2)
                }
            } else {
                sem_ifchain(args, d, 0)
            }
        },
        Operator::Or => sem_or(args, d, 0),
        Operator::And => sem_and(args, d, 0),
        Operator::LessThan => {
            if args.len() < 2 {
                JsonV::Bool(false)
            } else {
                let a = sem_expr(args[0], d);
                let b = sem_expr(args[1], d);
                if args.len() >= 3 {
                    JsonV::Bool(lt(a, b) && lt(b, sem_expr(args[2], d)))
                } else {
                    JsonV::Bool(lt(a, b))
                }
            }
        },
        Operator::LessEqualThan => {
            if args.len() < 2 {
                JsonV::Bool(false)
            } else {
                let a = sem_expr(args[0], d);
                let b = sem_expr(args[1], d);
                if args.len() >= 3 {
                    JsonV::Bool(le(a, b) && le(b, sem_expr(args[2], d)))
                } else {
                    JsonV::Bool(le(a, b))
                }
            }
        },
        Operator::GreaterThan => {
            if args.len() < 2 {
                JsonV::Bool(false)
            } else {
                JsonV::Bool(!le(sem_expr(args[0], d), sem_expr(args[1], d)))
            }
        },
        Operator::GreaterEqualThan => {
            if args.len() < 2 {
                JsonV::Bool(false)
            } else {
                JsonV::Bool(!lt(sem_expr(args[0], d), sem_expr(args[1], d)))
            }
        },
        Operator::Missing => JsonV::Arr(miss_list(keys_of(sem_args(args, d, 0)), d)),
        Operator::MissingSome => {
            let min = match num_of(arg_or_null(args, d, 0)) {
                Some(x) => dbl_ceil_u64(x),
                None => 0u64,
            };
            match arg_or_null(args, d, 1) {
                JsonV::Arr(keys) => if min == 0 {
                    JsonV::Arr(Seq::empty())
                } else {
                    JsonV::Arr(msome_walk(keys, d, min, Seq::empty()))
                },
                _ => JsonV::Arr(Seq::empty()),
            }
        },
        Operator::Min => sem_min(args, d, 0, None),
        Operator::Max => sem_max(args, d, 0, None),
        Operator::Addition => sem_add(args, d, 0, dbl_of_u64(0)),
        Operator::Subtraction => {
            if args.len() == 0 {
                JsonV::Null
            } else {
                let a = sem_expr(args[0], d);
                if args.len() == 1 {
                    match num_of(a) {
                        Some(x) => num_result(dbl_mul(dbl_of_i64(-1i64), x)),
                        None => JsonV::Null,
                    }
                } else {
                    let b = sem_expr(args[1], d);
                    match (num_of(a), num_of(b)) {
                        (Some(x), Some(y)) => num_result(dbl_sub(x, y)),
                        _ => JsonV::Null,
                    }
                }
            }
        },
        Operator::Multiplication => {
            if args.len() == 0 {
                JsonV::Null
            } else if args.len() == 1 {
                sem_expr(args[0], d)
            } else {
                sem_mul(args, d, 0, dbl_of_u64(1))
            }
        },
        Operator::Division => {
            if args.len() < 1 {
                JsonV::Null
            } else {
                match num_of(sem_expr(args[0], d)) {
                    None => JsonV::Null,
                    Some(x) => if args.len() < 2 {
                        JsonV::Null
                    } else {
                        match num_of(sem_expr(args[1], d)) {
                            None => JsonV::Null,
                            Some(y) => num_result(dbl_div(x, y)),
                        }
                    },
                }
            }
        },
        Operator::Modulo => {
            if args.len() < 1 {
                JsonV::Null
            } else {
                match num_of(sem_expr(args[0], d)) {
                    None => JsonV::Null,
                    Some(x) => if args.len() < 2 {
                        JsonV::Null
                    } else {
                        match num_of(sem_expr(args[1], d)) {
                            None => JsonV::Null,
                            Some(y) => num_result(dbl_rem(x, y)),
                        }
                    },
                }
            }
        },
        Operator::In => {
            if args.len() == 0 {
                JsonV::Bool(false)
            } else {
                let a = sem_expr(args[0], d);
                if args.len() < 2 {
                    JsonV::Bool(false)
                } else {
                    match sem_expr(args[1], d) {
                        JsonV::Str(s) => JsonV::Bool(str_has(s, str_of(a))),
                        JsonV::Arr(elems) => JsonV::Bool(in_arr_any(elems, a)),
                        _ => JsonV::Bool(false),
                    }
                }
            }
        },
        Operator::Cat => JsonV::Str(sem_cat(args, d, 0)),
        Operator::Substr => {
            let a = if args.len() >= 1 {
                str_of(sem_expr(args[0], d))
            } else {
                ("undefined")@
            };
            let start = if args.len() >= 2 {
                match num_of(sem_expr(args[1], d)) {
                    Some(x) => dbl_floor(x) as int,
                    None => 0int,
                }
            } else {
                0int
            };
            let limit = if args.len() >= 3 {
                match num_of(sem_expr(args[2], d)) {
                    Some(x) => Some(dbl_floor(x) as int),
                    None => None,
                }
            } else {
                None
            };
            JsonV::Str(substr_of(a, start, limit))
        },
        Operator::Log => arg_or_null(args, d, 0),
        Operator::Merge => JsonV::Arr(sem_merge(args, d, 0)),
        Operator::MapArray => {
            let elems = match arg_or_null(args, d, 0) {
                JsonV::Arr(e) => e,
                _ => Seq::empty(),
            };
            if args.len() < 2 {
                JsonV::Arr(Seq::new(elems.len(), |i: int| JsonV::Null))
            } else {
                JsonV::Arr(sem_map_fold(args[1], elems, 0))
            }
        },
        Operator::FilterArray => {
            let elems = match arg_or_null(args, d, 0) {
                JsonV::Arr(e) => e,
                _ => Seq::empty(),
            };
            if args.len() < 2 {
                JsonV::Arr(Seq::empty())
            } else {
                JsonV::Arr(sem_filter_fold(args[1], elems, 0))
            }
        },
        Operator::Reduce => {
            let initial = if args.len() >= 3 {
                sem_expr(args[2], d)
            } else {
                JsonV::Null
            };
            match arg_or_null(args, d, 0) {
                JsonV::Arr(elems) => if args.len() < 2 {
                    if elems.len() == 0 {
                        initial
                    } else {
                        JsonV::Null
                    }
                } else {
                    sem_reduce_fold(args[1], elems, 0, initial)
                },
                _ => initial,
            }
        },
        Operator::AllArray => {
            match arg_or_null(args, d, 0) {
                JsonV::Arr(elems) => if elems.len() == 0 || args.len() < 2 {
                    JsonV::Bool(false)
                } else {
                    JsonV::Bool(sem_all_fold(args[1], elems, 0))
                },
                JsonV::Str(s) => if s.len() == 0 || args.len() < 2 {
                    JsonV::Bool(false)
                } else {
                    JsonV::Bool(sem_all_fold(args[1], str_elems(s), 0))
                },
                _ => JsonV::Bool(false),
            }
        },
        Operator::SomeArray => {
            match arg_or_null(args, d, 0) {
                JsonV::Arr(elems) => if args.len() < 2 {
                    JsonV::Bool(false)
                } else {
                    JsonV::Bool(sem_some_fold(args[1], elems, 0))
                },
                _ => JsonV::Bool(false),
            }
        },
        Operator::NoneArray => {
            match arg_or_null(args, d, 0) {
                JsonV::Arr(elems) => if args.len() < 2 {
                    JsonV::Bool(true)
                } else {
                    JsonV::Bool(!sem_some_fold(args[1], elems, 0))
                },
                _ => JsonV::Bool(true),
            }
        },
    }
}

} // verus!
