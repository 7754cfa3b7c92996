//! A rule-evaluation engine for JsonLogic, a JSON-encoded expression
//! language: a rule is a JSON document which, against a JSON data document,
//! reduces to a JSON value, with the loose equality and coercion rules the
//! language inherits from JavaScript.
use vstd::prelude::*;

pub mod data;
pub mod dbl;
pub mod expression;
pub mod json;
pub mod logic;
pub mod operators;
pub mod props;
pub mod sem;
pub mod strings;

use crate::data::Data;
use crate::expression::{parse_rule, strs_v, unrecognized_msg, variable_names_spec, Expression};
use crate::json::{Json, JsonV};
use crate::sem::sem_expr;

verus! {

/// What applying a rule to data yields: the reduced value, or the message
/// naming the one unrecognized operator key that stopped the parse.
pub open spec fn apply_spec(rule: JsonV, data: JsonV) -> Result<JsonV, Seq<char>> {
    match parse_rule(rule) {
        Ok(e) => Ok(sem_expr(e, data)),
        Err(k) => Err(unrecognized_msg(k)),
    }
}

/// Applies the given rule to the given data. For a rule that does not read
/// any variables, the data may simply be `Json::Null`.
pub fn apply(json_logic: &Json, data: &Json) -> (r: Result<Json, String>)
    ensures
        r matches Ok(v) ==> apply_spec(json_logic@, data@) == Ok::<_, Seq<char>>(v@),
        r matches Err(m) ==> apply_spec(json_logic@, data@) == Err::<JsonV, _>(m@),
{
    let ast = match Expression::from_json(json_logic) {
        Ok(ast) => ast,
        Err(m) => {
            return Err(m);
        },
    };
    let data = Data::from_json(data);
    Ok(ast.compute_with_data(&data))
}

/// The distinct constant names the rule reads under `var`, each at its
/// first occurrence in traversal order; or the parse or analysis error.
pub fn get_variable_names(json_logic: &Json) -> (r: Result<Vec<String>, String>)
    ensures
        r matches Ok(names) ==> variable_names_spec(json_logic@) == Ok::<_, Seq<char>>(
            strs_v(names@),
        ),
        r matches Err(m) ==> variable_names_spec(json_logic@) == Err::<Seq<Seq<char>>, _>(m@),
{
    let ast = match Expression::from_json(json_logic) {
        Ok(ast) => ast,
        Err(m) => {
            return Err(m);
        },
    };
    ast.get_variable_names()
}

} // verus!
