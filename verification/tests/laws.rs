use jsonlogic::apply;
use jsonlogic::json::{Entry, Json, Num};
use jsonlogic::logic::{is_abstract_equal, is_strict_equal, less_equal_than, greater_than};
use serde_json::Value;

fn wc(v: &Value) -> Json {
    match v {
        Value::Null => Json::Null,
        Value::Bool(b) => Json::Bool(*b),
        Value::Number(n) => Json::Num(if let Some(u) = n.as_u64() {
            Num::PosInt(u)
        } else if let Some(i) = n.as_i64() {
            Num::NegInt(i)
        } else {
            Num::Float(n.to_string())
        }),
        Value::String(s) => Json::Str(s.clone()),
        Value::Array(a) => Json::Arr(a.iter().map(wc).collect()),
        Value::Object(o) => Json::Obj(
            o.iter()
                .map(|(k, v)| Entry {
                    key: k.clone(),
                    value: wc(v),
                })
                .collect(),
        ),
    }
}

fn wj(s: &str) -> Json {
    wc(&serde_json::from_str(s).unwrap())
}

fn wapply(rule: &str, data: &str) -> Result<Json, String> {
    apply(&wj(rule), &wj(data))
}

#[test]
fn constant_rule_applies_to_itself() {
    // A multi-entry object is no operator call: it applies to itself.
    let c = r#"{"a": 1, "b": [2, "x"], "c": {"d": null, "e": true}}"#;
    assert_eq!(wapply(c, r#"{"a": 99}"#), Ok(wj(c)));
    assert_eq!(wapply("[1, {}, []]", "null"), Ok(wj("[1, {}, []]")));
    assert_eq!(wapply("{}", "null"), Ok(wj("{}")));
}

#[test]
fn apply_is_deterministic() {
    let rule = r#"{"map":[{"var":"xs"},{"+":[{"var":""},0.1]}]}"#;
    let data = r#"{"xs":[1,2,3]}"#;
    assert_eq!(wapply(rule, data), wapply(rule, data));
}

#[test]
fn arithmetic_follows_the_doubles() {
    // The classic rounding witness: 0.1 + 0.2 is not 0.3 in binary64.
    assert_eq!(
        wapply(r#"{"+":[0.1, 0.2]}"#, "null"),
        Ok(wj("0.30000000000000004"))
    );
    assert_eq!(wapply(r#"{"*":[0.1, 3]}"#, "null"), Ok(wj("0.30000000000000004")));
    assert_eq!(wapply(r#"{"/":[1, 3]}"#, "null"), Ok(wj("0.3333333333333333")));
    // serde_json's plain float parser rounds this particular text differently,
    // so the expected number is built directly from its round-trip text.
    assert_eq!(
        wapply(r#"{"-":[0.3, 0.1]}"#, "null"),
        Ok(Json::Num(Num::Float(String::from("0.19999999999999998"))))
    );
    assert_eq!(wapply(r#"{"%":[5.5, 2]}"#, "null"), Ok(wj("1.5")));
    // Division and remainder by zero give null.
    assert_eq!(wapply(r#"{"/":[1, 0]}"#, "null"), Ok(wj("null")));
    assert_eq!(wapply(r#"{"%":[1, 0]}"#, "null"), Ok(wj("null")));
}

#[test]
fn var_default_on_miss() {
    assert_eq!(
        wapply(r#"{"var":["deep.a.b", "fallback"]}"#, r#"{"deep": {"a": 1}}"#),
        Ok(wj(r#""fallback""#))
    );
    assert_eq!(
        wapply(r#"{"var":[5, "fallback"]}"#, "[0, 1]"),
        Ok(wj(r#""fallback""#))
    );
}

#[test]
fn missing_pipes_through_merge() {
    // missing over the merge of a missing list and a missing_some list.
    let rule = r#"{"missing": {"merge": [
        {"missing": ["a", "b"]},
        {"missing_some": [1, ["c", "d"]]}
    ]}}"#;
    // "a" present, "b" missing; one of "c"/"d" present, so missing_some is
    // empty; the probe then reports only the key that really is absent.
    assert_eq!(
        wapply(rule, r#"{"a": 1, "c": 2}"#),
        Ok(wj(r#"["b"]"#))
    );
    // Nothing present: both lists flow through the pipe.
    assert_eq!(
        wapply(rule, "{}"),
        Ok(wj(r#"["a", "b", "c", "d"]"#))
    );
}

#[test]
fn all_some_none_on_empty_array() {
    assert_eq!(wapply(r#"{"all":[[], {"var":""}]}"#, "null"), Ok(wj("false")));
    assert_eq!(wapply(r#"{"some":[[], {"var":""}]}"#, "null"), Ok(wj("false")));
    assert_eq!(wapply(r#"{"none":[[], {"var":""}]}"#, "null"), Ok(wj("true")));
}

#[test]
fn abstract_equality_is_symmetric() {
    let pairs = [
        ("[1, 2]", r#""1,2""#),
        ("true", "1"),
        ("false", r#""""#),
        ("null", "0"),
        ("[0.5]", "0.5"),
        ("{}", "{}"),
        (r#""0.0""#, "0"),
    ];
    for (a, b) in pairs.iter() {
        assert_eq!(
            is_abstract_equal(&wj(a), &wj(b)),
            is_abstract_equal(&wj(b), &wj(a))
        );
    }
}

#[test]
fn strict_implies_abstract() {
    let pairs = [
        ("1", "1.0"),
        ("-0", "0.0"),
        (r#""x""#, r#""x""#),
        ("null", "null"),
        ("true", "true"),
    ];
    for (a, b) in pairs.iter() {
        assert!(is_strict_equal(&wj(a), &wj(b)));
        assert!(is_abstract_equal(&wj(a), &wj(b)));
        assert!(is_strict_equal(&wj(b), &wj(a)));
    }
}

#[test]
fn lte_complements_gt() {
    let values = ["1", "2", r#""1""#, r#""b""#, "null", "true", "[]", "[2]", "{}"];
    for a in values.iter() {
        for b in values.iter() {
            assert_eq!(
                less_equal_than(&wj(a), &wj(b)),
                !greater_than(&wj(a), &wj(b))
            );
        }
    }
}

#[test]
fn unrecognized_operation_is_reported() {
    assert_eq!(
        wapply(r#"{"frobnicate": [1, 2]}"#, "null"),
        Err(String::from("Unrecognized operation frobnicate"))
    );
    assert_eq!(
        jsonlogic::get_variable_names(&wj(r#"{"nonsense": 1}"#)),
        Err(String::from("Unrecognized operation nonsense"))
    );
}

#[test]
fn number_texts_round_through_the_engine() {
    // Integer inputs print without a fraction; computed doubles carry one.
    assert_eq!(wapply(r#"{"cat":[1, "-", 2.5]}"#, "null"), Ok(wj(r#""1-2.5""#)));
    assert_eq!(wapply(r#"{"cat":[-7]}"#, "null"), Ok(wj(r#""-7""#)));
    // A parsed text and a literal number meet as the same double.
    assert_eq!(wapply(r#"{"==":["3.14", 3.14]}"#, "null"), Ok(wj("true")));
    assert_eq!(wapply(r#"{"==":["-0", 0]}"#, "null"), Ok(wj("true")));
    // min/max pick by double ordering across integers and texts.
    assert_eq!(wapply(r#"{"min":[2, "1.5", 3]}"#, "null"), Ok(wj("1.5")));
    assert_eq!(wapply(r#"{"max":[2, "2.5", 1]}"#, "null"), Ok(wj("2.5")));
}

#[test]
fn fractional_positions_floor_in_substr() {
    assert_eq!(
        wapply(r#"{"substr":["jsonlogic", 4.9]}"#, "null"),
        Ok(wj(r#""logic""#))
    );
    assert_eq!(
        wapply(r#"{"substr":["jsonlogic", 0, 4.9]}"#, "null"),
        Ok(wj(r#""json""#))
    );
}

#[test]
fn if_picks_the_first_truthy_branch() {
    let rule = r#"{"if":[{"<":[{"var":"temp"},0]},"freezing",{"<":[{"var":"temp"},100]},"liquid","gas"]}"#;
    assert_eq!(wapply(rule, r#"{"temp": -5}"#), Ok(wj(r#""freezing""#)));
    assert_eq!(wapply(rule, r#"{"temp": 50}"#), Ok(wj(r#""liquid""#)));
    assert_eq!(wapply(rule, r#"{"temp": 150}"#), Ok(wj(r#""gas""#)));
}
