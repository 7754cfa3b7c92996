use jsonlogic::apply;
use jsonlogic::expression::Expression;
use jsonlogic::json::{Entry, Json, Num};
use jsonlogic::operators::Operator;
use serde_json::Value;
use std::collections::HashSet;

fn pc(v: &Value) -> Json {
    match v {
        Value::Null => Json::Null,
        Value::Bool(b) => Json::Bool(*b),
        Value::Number(n) => Json::Num(if let Some(u) = n.as_u64() {
            Num::PosInt(u)
        } else if let Some(i) = n.as_i64() {
            Num::NegInt(i)
        } else {
            Num::Float(n.to_string())
        }),
        Value::String(s) => Json::Str(s.clone()),
        Value::Array(a) => Json::Arr(a.iter().map(pc).collect()),
        Value::Object(o) => Json::Obj(
            o.iter()
                .map(|(k, v)| Entry {
                    key: k.clone(),
                    value: pc(v),
                })
                .collect(),
        ),
    }
}

fn pj(s: &str) -> Json {
    pc(&serde_json::from_str(s).unwrap())
}

fn var_set(e: &Expression) -> Result<HashSet<String>, String> {
    e.get_variable_names().map(|v| v.into_iter().collect())
}

#[test]
fn parse_to_ast() {
    assert_eq!(
        Expression::from_json(&pj(r#"{ "==": null }"#)).unwrap(),
        Expression::Computed(Operator::Equal, vec![])
    );

    assert_eq!(
        Expression::from_json(&pj(r#"{ "==": [] }"#)).unwrap(),
        Expression::Computed(Operator::Equal, vec![])
    );

    assert_eq!(
        Expression::from_json(&pj(r#"{ "==": [1] }"#)).unwrap(),
        Expression::Computed(Operator::Equal, vec![Expression::Constant(pj("1"))])
    );

    assert_eq!(
        Expression::from_json(&pj(r#"{ "==": [1, 2] }"#)).unwrap(),
        Expression::Computed(
            Operator::Equal,
            vec![Expression::Constant(pj("1")), Expression::Constant(pj("2"))]
        )
    );

    assert_eq!(
        Expression::from_json(&pj(r#"{"!=": [5, 2]}"#)).unwrap(),
        Expression::Computed(
            Operator::NotEqual,
            vec![Expression::Constant(pj("5")), Expression::Constant(pj("2"))]
        )
    );

    assert_eq!(
        Expression::from_json(&pj(r#"{"var": ["foo"]}"#)).unwrap(),
        Expression::Computed(
            Operator::Variable,
            vec![Expression::Constant(pj(r#""foo""#))]
        )
    );

    assert_eq!(
        Expression::from_json(&pj(r#"{"==": [{"var": ["foo"]}, "foo"]}"#)).unwrap(),
        Expression::Computed(
            Operator::Equal,
            vec![
                Expression::Computed(
                    Operator::Variable,
                    vec![Expression::Constant(pj(r#""foo""#))]
                ),
                Expression::Constant(pj(r#""foo""#))
            ]
        )
    );
}

#[test]
fn get_variable_names_error() {
    assert_eq!(
        Expression::Computed(
            Operator::Variable,
            vec![Expression::Computed(
                Operator::Variable,
                vec![Expression::Constant(pj(r#""foo""#))]
            )]
        )
        .get_variable_names(),
        Err(String::from("found Variable operator with non static argument"))
    );

    assert_eq!(
        Expression::Computed(Operator::Variable, vec![Expression::Constant(pj("1"))])
            .get_variable_names(),
        Err(String::from("found Variable operator with non string argument"))
    );

    assert_eq!(
        Expression::Computed(Operator::Variable, vec![]).get_variable_names(),
        Err(String::from("found Variable operator without arguments"))
    );
}

#[test]
fn get_variable_names() {
    assert_eq!(
        var_set(&Expression::Constant(pj(r#""foo""#))),
        Ok(HashSet::new())
    );

    assert_eq!(
        var_set(&Expression::Computed(
            Operator::Variable,
            vec![Expression::Constant(pj(r#""foo""#))]
        )),
        Ok(["foo".to_owned()].iter().cloned().collect::<HashSet<_>>())
    );

    assert_eq!(
        var_set(&Expression::Computed(
            Operator::Equal,
            vec![
                Expression::Constant(pj(r#""a value""#)),
                Expression::Computed(
                    Operator::Variable,
                    vec![Expression::Constant(pj(r#""foo""#))]
                )
            ]
        )),
        Ok(["foo".to_owned()].iter().cloned().collect::<HashSet<_>>())
    );

    assert_eq!(
        var_set(&Expression::Computed(
            Operator::Equal,
            vec![
                Expression::Computed(
                    Operator::Variable,
                    vec![Expression::Constant(pj(r#""foo""#))]
                ),
                Expression::Computed(
                    Operator::Variable,
                    vec![Expression::Constant(pj(r#""foo""#))]
                )
            ]
        )),
        Ok(["foo".to_owned()].iter().cloned().collect::<HashSet<_>>())
    );

    assert_eq!(
        var_set(&Expression::Computed(
            Operator::Equal,
            vec![
                Expression::Computed(
                    Operator::Variable,
                    vec![Expression::Constant(pj(r#""bar""#))]
                ),
                Expression::Computed(
                    Operator::Variable,
                    vec![Expression::Constant(pj(r#""foo""#))]
                )
            ]
        )),
        Ok(["foo".to_owned(), "bar".to_owned()]
            .iter()
            .cloned()
            .collect::<HashSet<_>>())
    );
}

#[test]
fn expression_constant_expression() {
    assert_eq!(Expression::Constant(pj("1")).compute(), pj("1"));
}

#[test]
fn expression_equal() {
    assert_eq!(
        Expression::Computed(Operator::Equal, vec![]).compute(),
        pj("true")
    );
    assert_eq!(
        Expression::Computed(Operator::Equal, vec![Expression::Constant(pj("null"))]).compute(),
        pj("true")
    );
    assert_eq!(
        Expression::Computed(
            Operator::Equal,
            vec![Expression::Constant(pj("1")), Expression::Constant(pj("1"))]
        )
        .compute(),
        pj("true")
    );
    assert_eq!(
        Expression::Computed(
            Operator::Equal,
            vec![Expression::Constant(pj("1")), Expression::Constant(pj("2"))]
        )
        .compute(),
        pj("false")
    );
}

#[test]
fn computation_constant_expression() {
    assert_eq!(Expression::Constant(pj("1")).compute(), pj("1"));
}

#[test]
fn computation_equal() {
    assert_eq!(
        Expression::Computed(Operator::Equal, vec![]).compute(),
        pj("true")
    );
    assert_eq!(
        Expression::Computed(Operator::Equal, vec![Expression::Constant(pj("null"))]).compute(),
        pj("true")
    );
    assert_eq!(
        Expression::Computed(
            Operator::Equal,
            vec![Expression::Constant(pj("1")), Expression::Constant(pj("1"))]
        )
        .compute(),
        pj("true")
    );
    assert_eq!(
        Expression::Computed(
            Operator::Equal,
            vec![Expression::Constant(pj("1")), Expression::Constant(pj("2"))]
        )
        .compute(),
        pj("false")
    );
}

#[test]
fn lib_simple_values() {
    let num = pj("1");
    assert_eq!(apply(&num, &pj("null")), Ok(pj("1")));

    let string = pj(r#""foo""#);
    assert_eq!(apply(&string, &pj("null")), Ok(pj(r#""foo""#)));

    let boolean = pj("true");
    assert_eq!(apply(&boolean, &pj("null")), Ok(pj("true")));
}

#[test]
fn var_names() {
    let json_logic = pj(r#"{ "!==": [{ "var": "foo" }, { "var": ["bar", 5] }] }"#);
    let names: HashSet<_> = [String::from("foo"), String::from("bar")]
        .iter()
        .cloned()
        .collect();
    let got: HashSet<String> = jsonlogic::get_variable_names(&json_logic).unwrap().into_iter().collect();
    assert_eq!(got, names);
}

#[test]
fn from_str() {
    assert_eq!(Operator::from_str("=="), Some(Operator::Equal));
    assert_eq!(Operator::from_str("!="), Some(Operator::NotEqual));
    assert_eq!(Operator::from_str("==="), Some(Operator::StrictEqual));
    assert_eq!(Operator::from_str("!=="), Some(Operator::StrictNotEqual));
    assert_eq!(Operator::from_str("var"), Some(Operator::Variable));
    assert_eq!(Operator::from_str("!"), Some(Operator::Negation));
    assert_eq!(Operator::from_str("!!"), Some(Operator::DoubleNegation));
    assert_eq!(Operator::from_str("if"), Some(Operator::If));
    assert_eq!(Operator::from_str("or"), Some(Operator::Or));
    assert_eq!(Operator::from_str("and"), Some(Operator::And));
    assert_eq!(Operator::from_str("<"), Some(Operator::LessThan));
    assert_eq!(Operator::from_str("<="), Some(Operator::LessEqualThan));
    assert_eq!(Operator::from_str(">"), Some(Operator::GreaterThan));
    assert_eq!(Operator::from_str(">="), Some(Operator::GreaterEqualThan));
    assert_eq!(Operator::from_str("missing"), Some(Operator::Missing));
    assert_eq!(Operator::from_str("missing_some"), Some(Operator::MissingSome));
    assert_eq!(Operator::from_str("min"), Some(Operator::Min));
    assert_eq!(Operator::from_str("max"), Some(Operator::Max));
    assert_eq!(Operator::from_str("+"), Some(Operator::Addition));
    assert_eq!(Operator::from_str("-"), Some(Operator::Subtraction));
    assert_eq!(Operator::from_str("*"), Some(Operator::Multiplication));
    assert_eq!(Operator::from_str("/"), Some(Operator::Division));
    assert_eq!(Operator::from_str("%"), Some(Operator::Modulo));
    assert_eq!(Operator::from_str("in"), Some(Operator::In));
    assert_eq!(Operator::from_str("cat"), Some(Operator::Cat));
    assert_eq!(Operator::from_str("substr"), Some(Operator::Substr));
    assert_eq!(Operator::from_str("log"), Some(Operator::Log));
    assert_eq!(Operator::from_str("merge"), Some(Operator::Merge));
}
