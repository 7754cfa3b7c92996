use jsonlogic::apply;
use jsonlogic::json::{Entry, Json, Num};
use serde_json::Value;

fn nc(v: &Value) -> Json {
    match v {
        Value::Null => Json::Null,
        Value::Bool(b) => Json::Bool(*b),
        Value::Number(n) => Json::Num(if let Some(u) = n.as_u64() {
            Num::PosInt(u)
        } else if let Some(i) = n.as_i64() {
            Num::NegInt(i)
        } else {
            Num::Float(n.to_string())
        }),
        Value::String(s) => Json::Str(s.clone()),
        Value::Array(a) => Json::Arr(a.iter().map(nc).collect()),
        Value::Object(o) => Json::Obj(
            o.iter()
                .map(|(k, v)| Entry {
                    key: k.clone(),
                    value: nc(v),
                })
                .collect(),
        ),
    }
}

fn nj(s: &str) -> Json {
    nc(&serde_json::from_str(s).unwrap())
}

fn napply(rule: &str, data: &str) -> Result<Json, String> {
    apply(&nj(rule), &nj(data))
}

#[test]
fn compare() {
    // Only simple tests here, the hardcore coercion tests sit with the value
    // semantics.
    assert_eq!(napply(r#"{"<": []}"#, "null"), Ok(nj("false")));
    assert_eq!(napply(r#"{"<": [1]}"#, "null"), Ok(nj("false")));
    assert_eq!(napply(r#"{"<": [1, 2]}"#, "null"), Ok(nj("true")));
    assert_eq!(napply(r#"{"<": [2, 1]}"#, "null"), Ok(nj("false")));
    assert_eq!(napply(r#"{">": [2, 1]}"#, "null"), Ok(nj("true")));
    assert_eq!(napply(r#"{">=": [2, 2]}"#, "null"), Ok(nj("true")));
    assert_eq!(napply(r#"{">=": [2, 3]}"#, "null"), Ok(nj("false")));
    assert_eq!(napply(r#"{"<=": [2, 2]}"#, "null"), Ok(nj("true")));
    assert_eq!(napply(r#"{"<=": [3, 2]}"#, "null"), Ok(nj("false")));
}

#[test]
fn numeric_between_exclusive() {
    assert_eq!(napply(r#"{"<" : [1, 2, 3]}"#, "null"), Ok(nj("true")));
    assert_eq!(napply(r#"{"<" : [1, 1, 3]}"#, "null"), Ok(nj("false")));
    assert_eq!(napply(r#"{"<" : [1, 4, 3]}"#, "null"), Ok(nj("false")));
}

#[test]
fn numeric_between_inclusive() {
    assert_eq!(napply(r#"{"<=" : [1, 2, 3]}"#, "null"), Ok(nj("true")));
    assert_eq!(napply(r#"{"<=" : [1, 1, 3]}"#, "null"), Ok(nj("true")));
    assert_eq!(napply(r#"{"<=" : [1, 4, 3]}"#, "null"), Ok(nj("false")));
}

#[test]
fn min() {
    assert_eq!(napply(r#"{"min":[1,2,3]}"#, "null"), Ok(nj("1.0")));
}

#[test]
fn max() {
    assert_eq!(napply(r#"{"max":[1,"4",3]}"#, "null"), Ok(nj("4.0")));
}

#[test]
fn adddition() {
    assert_eq!(napply(r#"{"+":[4, 2]}"#, "null"), Ok(nj("6.0")));
    assert_eq!(napply(r#"{"+":[2,2,2,2,2]}"#, "null"), Ok(nj("10.0")));
    assert_eq!(napply(r#"{"+" : "3.14"}"#, "null"), Ok(nj("3.14")));
}

#[test]
fn numeric_substraction() {
    assert_eq!(napply(r#"{"-": [4,2]}"#, "null"), Ok(nj("2.0")));
    assert_eq!(napply(r#"{"-": [2]}"#, "null"), Ok(nj("-2.0")));
    assert_eq!(napply(r#"{"-": "-2"}"#, "null"), Ok(nj("2.0")));
}

#[test]
fn multiplication() {
    assert_eq!(napply(r#"{"*":[4, 2]}"#, "null"), Ok(nj("8.0")));
    assert_eq!(napply(r#"{"*":[2,2,2,2,2]}"#, "null"), Ok(nj("32.0")));
    assert_eq!(napply(r#"{"*" : "3.14"}"#, "null"), Ok(nj(r#""3.14""#)));
}

#[test]
fn division() {
    assert_eq!(napply(r#"{"/":[4, 2]}"#, "null"), Ok(nj("2.0")));
    // null/2 === 0/2 === 0
    assert_eq!(napply(r#"{"/":[null, 2]}"#, "null"), Ok(nj("0.0")));
    assert_eq!(napply(r#"{"/":[4, 0]}"#, "null"), Ok(nj("null")));
    // 4/null === 4/0 === null
    assert_eq!(napply(r#"{"/":[4, null]}"#, "null"), Ok(nj("null")));
}

#[test]
fn modulo() {
    assert_eq!(napply(r#"{"%": [101, 2]}"#, "null"), Ok(nj("1.0")));
    assert_eq!(napply(r#"{"%": [101, null]}"#, "null"), Ok(nj("null")));
    assert_eq!(napply(r#"{"%": [101, 0]}"#, "null"), Ok(nj("null")));
    assert_eq!(napply(r#"{"%": [null, 101]}"#, "null"), Ok(nj("0.0")));
}
