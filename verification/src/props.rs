//! The laws the engine keeps, stated over the semantic functions and
//! proved once for all rules and all data.
use crate::expression::ExprV;
use crate::json::{JsonV, NumV};
use crate::logic::{abs_eq, join_comma, strict_eq};
use crate::operators::Operator;
use crate::sem::{arg_or_null, sem_op};
use vstd::prelude::*;

verus! {

/// Law: a constant rule — any document that is not a single-entry object —
/// applies to itself, whatever the data.
pub proof fn lemma_constant_rule(v: JsonV, d: JsonV)
    requires
        !(v matches JsonV::Obj(o) && o.len() == 1),
    ensures
        crate::apply_spec(v, d) == Ok::<JsonV, Seq<char>>(v),
{
}

/// Law: applying a rule is deterministic — two results of the same rule on
/// the same data are equal.
pub proof fn lemma_apply_deterministic(
    rule: JsonV,
    d: JsonV,
    r1: Result<JsonV, Seq<char>>,
    r2: Result<JsonV, Seq<char>>,
)
    requires
        r1 == crate::apply_spec(rule, d),
        r2 == crate::apply_spec(rule, d),
    ensures
        r1 == r2,
{
}

/// Law: where a `var` probe would miss, the default — the second argument —
/// is returned instead.
pub proof fn lemma_var_default(args: Seq<ExprV>, d: JsonV)
    requires
        !(arg_or_null(args, d, 0) is Null),
        !(arg_or_null(args, d, 0) matches JsonV::Str(s) && s.len() == 0),
        crate::data::lookup(d, arg_or_null(args, d, 0)) is None,
    ensures
        sem_op(Operator::Variable, args, d) == arg_or_null(args, d, 1),
{
}

/// Law: `all` of an empty array is false, whatever the condition.
pub proof fn lemma_all_empty(args: Seq<ExprV>, d: JsonV)
    requires
        arg_or_null(args, d, 0) == JsonV::Arr(Seq::<JsonV>::empty()),
    ensures
        sem_op(Operator::AllArray, args, d) == JsonV::Bool(false),
{
}

/// Law: `some` of an empty array is false, whatever the condition.
pub proof fn lemma_some_empty(args: Seq<ExprV>, d: JsonV)
    requires
        arg_or_null(args, d, 0) == JsonV::Arr(Seq::<JsonV>::empty()),
    ensures
        sem_op(Operator::SomeArray, args, d) == JsonV::Bool(false),
{
}

/// Law: `none` of an empty array is true, whatever the condition.
pub proof fn lemma_none_empty(args: Seq<ExprV>, d: JsonV)
    requires
        arg_or_null(args, d, 0) == JsonV::Arr(Seq::<JsonV>::empty()),
    ensures
        sem_op(Operator::NoneArray, args, d) == JsonV::Bool(true),
{
}

/// Law: strict equality is symmetric.
pub proof fn lemma_strict_equal_symmetric(a: JsonV, b: JsonV)
    ensures
        strict_eq(a, b) == strict_eq(b, a),
{
}

/// Law: strict equality implies abstract equality.
pub proof fn lemma_strict_implies_abstract(a: JsonV, b: JsonV)
    requires
        strict_eq(a, b),
    ensures
        abs_eq(a, b),
{
}

/// Law: abstract equality is symmetric.
pub proof fn lemma_abstract_equal_symmetric(a: JsonV, b: JsonV)
    ensures
        abs_eq(a, b) == abs_eq(b, a),
    decreases crate::logic::ae_rank(a) + crate::logic::ae_rank(b),
{
    match (a, b) {
        (JsonV::Bool(_), JsonV::Bool(_)) => {},
        (JsonV::Bool(x), _) => {
            let an = JsonV::Num(NumV::Float(crate::dbl::dbl_of_u64(if x {
                1
            } else {
                0
            })));
            lemma_abstract_equal_symmetric(an, b);
        },
        (_, JsonV::Bool(y)) => {
            let bn = JsonV::Num(NumV::Float(crate::dbl::dbl_of_u64(if y {
                1
            } else {
                0
            })));
            lemma_abstract_equal_symmetric(a, bn);
        },
        (JsonV::Num(_), JsonV::Arr(ar)) => {
            lemma_abstract_equal_symmetric(a, JsonV::Str(join_comma(ar)));
        },
        (JsonV::Arr(ar), JsonV::Num(_)) => {
            lemma_abstract_equal_symmetric(JsonV::Str(join_comma(ar)), b);
        },
        _ => {},
    }
}

/// Law: `a <= b` holds exactly where `a > b` does not, for two-argument
/// comparisons.
pub proof fn lemma_lte_is_not_gt(args: Seq<ExprV>, d: JsonV)
    requires
        args.len() == 2,
    ensures
        sem_op(Operator::LessEqualThan, args, d) matches JsonV::Bool(x) && sem_op(
            Operator::GreaterThan,
            args,
            d,
        ) == JsonV::Bool(!x),
{
}

} // verus!
