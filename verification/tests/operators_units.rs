use jsonlogic::data::Data;
use jsonlogic::expression::Expression;
use jsonlogic::json::{Entry, Json, Num};
use jsonlogic::logic;
use jsonlogic::operators::{
    addition, cat, division, double_negation, equality, if_else, is_in, less_equal_than,
    less_than, log, max, merge, min, missing, missing_some, modulo, multiplication, negation,
    not_equal, substr, subtraction, variable,
};
use serde_json::Value;

fn oc(v: &Value) -> Json {
    match v {
        Value::Null => Json::Null,
        Value::Bool(b) => Json::Bool(*b),
        Value::Number(n) => Json::Num(if let Some(u) = n.as_u64() {
            Num::PosInt(u)
        } else if let Some(i) = n.as_i64() {
            Num::NegInt(i)
        } else {
            Num::Float(n.to_string())
        }),
        Value::String(s) => Json::Str(s.clone()),
        Value::Array(a) => Json::Arr(a.iter().map(oc).collect()),
        Value::Object(o) => Json::Obj(
            o.iter()
                .map(|(k, v)| Entry {
                    key: k.clone(),
                    value: oc(v),
                })
                .collect(),
        ),
    }
}

fn oj(s: &str) -> Json {
    oc(&serde_json::from_str(s).unwrap())
}

fn consts(vals: &[&str]) -> Vec<Expression> {
    vals.iter().map(|s| Expression::Constant(oj(s))).collect()
}

#[test]
fn addition_test() {
    let null = Json::Null;
    let data = Data::from_json(&null);
    assert_eq!(addition::compute(&consts(&[]), &data), oj("0.0"));
    assert_eq!(addition::compute(&consts(&["null"]), &data), Json::Null);
    assert_eq!(addition::compute(&consts(&[r#""foo""#]), &data), Json::Null);
    assert_eq!(addition::compute(&consts(&[r#""6""#]), &data), oj("6.0"));
    assert_eq!(addition::compute(&consts(&["4", "2"]), &data), oj("6.0"));
    assert_eq!(
        addition::compute(&consts(&["4", "2", "2", "2"]), &data),
        oj("10.0")
    );
}

#[test]
fn cat_test() {
    let null = Json::Null;
    let data = Data::from_json(&null);
    assert_eq!(cat::compute(&consts(&[]), &data), oj(r#""""#));
    assert_eq!(cat::compute(&consts(&["1", "2", "3"]), &data), oj(r#""123""#));
    assert_eq!(
        cat::compute(&consts(&[r#""foo""#, r#""bar""#]), &data),
        oj(r#""foobar""#)
    );
    assert_eq!(
        cat::compute(&consts(&[r#""foo""#, "[1, 2]", r#""bar""#]), &data),
        oj(r#""foo1,2bar""#)
    );
}

#[test]
fn division_null() {
    let null = Json::Null;
    let data = Data::from_json(&null);
    assert_eq!(division::compute(&consts(&[]), &data), Json::Null);
    assert_eq!(division::compute(&consts(&[r#""a""#]), &data), Json::Null);
    assert_eq!(division::compute(&consts(&["1"]), &data), Json::Null);
    assert_eq!(division::compute(&consts(&["1", "0"]), &data), Json::Null);

    assert_eq!(division::compute(&consts(&["1", "2"]), &data), oj("0.5"));
}

#[test]
fn double_negation_test() {
    let null = Json::Null;
    let data = Data::from_json(&null);
    assert_eq!(double_negation::compute(&consts(&[]), &data), oj("false"));
    assert_eq!(double_negation::compute(&consts(&["null"]), &data), oj("false"));
    assert_eq!(double_negation::compute(&consts(&["false"]), &data), oj("false"));
    assert_eq!(double_negation::compute(&consts(&["true"]), &data), oj("true"));
}

#[test]
fn equality_default_null() {
    let null = Json::Null;
    let data = Data::from_json(&null);
    assert_eq!(equality::compute(&consts(&[]), &data), oj("true"));
    assert_eq!(equality::compute(&consts(&["null"]), &data), oj("true"));
}

#[test]
fn equality_test() {
    let null = Json::Null;
    let data = Data::from_json(&null);
    assert_eq!(equality::compute(&consts(&["null", "null"]), &data), oj("true"));
    assert_eq!(equality::compute(&consts(&["1", "1"]), &data), oj("true"));
    assert_eq!(equality::compute(&consts(&["1", "2"]), &data), oj("false"));
}

#[test]
fn if_else_simple() {
    let null = Json::Null;
    let data = Data::from_json(&null);
    assert_eq!(if_else::compute(&consts(&[]), &data), Json::Null);
    assert_eq!(if_else::compute(&consts(&["null"]), &data), Json::Null);
}

#[test]
fn one_arg() {
    let null = Json::Null;
    let data = Data::from_json(&null);
    assert_eq!(if_else::compute(&consts(&["true"]), &data), oj("true"));
    assert_eq!(if_else::compute(&consts(&["false"]), &data), oj("false"));
    assert_eq!(if_else::compute(&consts(&[r#""foo""#]), &data), oj(r#""foo""#));
}

#[test]
fn two_args() {
    let null = Json::Null;
    let data = Data::from_json(&null);
    assert_eq!(if_else::compute(&consts(&["true", "5"]), &data), oj("5"));
    assert_eq!(if_else::compute(&consts(&["false", "5"]), &data), oj("null"));
    assert_eq!(
        if_else::compute(&consts(&[r#""foo""#, r#""bar""#]), &data),
        oj(r#""bar""#)
    );
}

#[test]
fn three_args() {
    let null = Json::Null;
    let data = Data::from_json(&null);
    assert_eq!(if_else::compute(&consts(&["true", "5", "6"]), &data), oj("5"));
    assert_eq!(if_else::compute(&consts(&["false", "5", "6"]), &data), oj("6"));
}

#[test]
fn more() {
    let null = Json::Null;
    let data = Data::from_json(&null);
    assert_eq!(
        if_else::compute(&consts(&["false", "5", "true", "6"]), &data),
        oj("6")
    );
    assert_eq!(
        if_else::compute(&consts(&["false", "5", "false", "6"]), &data),
        oj("null")
    );
    assert_eq!(
        if_else::compute(&consts(&["false", "5", "false", "6", "7"]), &data),
        oj("7")
    );
    assert_eq!(
        if_else::compute(&consts(&["false", "5", "false", "6", "7", "8"]), &data),
        oj("8")
    );
}

#[test]
fn is_in_basic() {
    let null = Json::Null;
    let data = Data::from_json(&null);
    assert_eq!(is_in::compute(&consts(&[]), &data), oj("false"));
    assert_eq!(is_in::compute(&consts(&["null"]), &data), oj("false"));
    assert_eq!(is_in::compute(&consts(&[r#""foo""#]), &data), oj("false"));
}

#[test]
fn is_in_substr() {
    let null = Json::Null;
    let data = Data::from_json(&null);
    assert_eq!(
        is_in::compute(&consts(&[r#""foo""#, r#""foobar""#]), &data),
        oj("true")
    );
    assert_eq!(
        is_in::compute(
            &consts(&["{}", r#""{}.toString() === '[object Object]'""#]),
            &data
        ),
        oj("true")
    );
}

#[test]
fn array() {
    let null = Json::Null;
    let data = Data::from_json(&null);
    assert_eq!(
        is_in::compute(&consts(&[r#""foo""#, r#"["foo"]"#]), &data),
        oj("true")
    );
    assert_eq!(
        is_in::compute(&consts(&[r#""foo""#, r#"["foo", "bar"]"#]), &data),
        oj("true")
    );
    assert_eq!(
        is_in::compute(&consts(&["1.0", r#"["foo", 1, "bar"]"#]), &data),
        oj("true")
    );

    assert_eq!(
        is_in::compute(&consts(&["1", r#"["foo", "1", true, "bar"]"#]), &data),
        oj("false")
    );
    assert_eq!(
        is_in::compute(&consts(&["1.1", r#"["foo", 1, "bar"]"#]), &data),
        oj("false")
    );
    assert_eq!(is_in::compute(&consts(&["{}", "[{}]"]), &data), oj("false"));
}

#[test]
fn is_substr_test() {
    let null = Json::Null;
    let data = Data::from_json(&null);
    assert_eq!(is_in::compute(&consts(&[]), &data), oj("false"));
    assert_eq!(is_in::compute(&consts(&["null"]), &data), oj("false"));
    assert_eq!(is_in::compute(&consts(&[r#""foo""#]), &data), oj("false"));

    assert_eq!(
        is_in::compute(&consts(&[r#""foo""#, r#""foobar""#]), &data),
        oj("true")
    );
    assert_eq!(
        is_in::compute(
            &consts(&["{}", r#""{}.toString() === '[object Object]'""#]),
            &data
        ),
        oj("true")
    );
}

#[test]
fn less_equal_than() {
    let null = Json::Null;
    let data = Data::from_json(&null);
    assert_eq!(less_equal_than::compute(&consts(&[]), &data), oj("false"));
    assert_eq!(less_equal_than::compute(&consts(&["1"]), &data), oj("false"));
    assert_eq!(less_equal_than::compute(&consts(&["1", "2"]), &data), oj("true"));
    assert_eq!(less_equal_than::compute(&consts(&["2", "2"]), &data), oj("true"));
    assert_eq!(less_equal_than::compute(&consts(&["3", "2"]), &data), oj("false"));
}

#[test]
fn less_equal_than_between_inclusive() {
    let null = Json::Null;
    let data = Data::from_json(&null);
    assert_eq!(
        less_equal_than::compute(&consts(&["1", "2", "3"]), &data),
        oj("true")
    );
    assert_eq!(
        less_equal_than::compute(&consts(&["1", "2", "2"]), &data),
        oj("true")
    );
    assert_eq!(
        less_equal_than::compute(&consts(&["2", "2", "3"]), &data),
        oj("true")
    );
    assert_eq!(
        less_equal_than::compute(&consts(&["2", "4", "3"]), &data),
        oj("false")
    );
}

#[test]
fn less_than() {
    let null = Json::Null;
    let data = Data::from_json(&null);
    assert_eq!(less_than::compute(&consts(&[]), &data), oj("false"));
    assert_eq!(less_than::compute(&consts(&["1"]), &data), oj("false"));
    assert_eq!(less_than::compute(&consts(&["1", "2"]), &data), oj("true"));
    assert_eq!(less_than::compute(&consts(&["2", "2"]), &data), oj("false"));
}

#[test]
fn less_than_between_exclusive() {
    let null = Json::Null;
    let data = Data::from_json(&null);
    assert_eq!(less_than::compute(&consts(&["1", "2", "3"]), &data), oj("true"));
    assert_eq!(less_than::compute(&consts(&["1", "2", "2"]), &data), oj("false"));
    assert_eq!(less_than::compute(&consts(&["2", "2", "3"]), &data), oj("false"));
}

#[test]
fn log_test() {
    let null = Json::Null;
    let data = Data::from_json(&null);
    assert_eq!(log::compute(&consts(&[]), &data), oj("null"));
    assert_eq!(log::compute(&consts(&[r#""foo""#]), &data), oj(r#""foo""#));
    assert_eq!(
        log::compute(&consts(&[r#""foo""#, r#""bar""#]), &data),
        oj(r#""foo""#)
    );
    assert_eq!(
        log::compute(&consts(&[r#"{"foo": [1, 2, 3]}"#, r#""bar""#]), &data),
        oj(r#"{"foo": [1, 2, 3]}"#)
    );
}

#[test]
fn defaults() {
    let null = Json::Null;
    let data = Data::from_json(&null);
    assert_eq!(jsonlogic::operators::map::compute(&consts(&[]), &data), oj("[]"));
    assert_eq!(
        jsonlogic::operators::map::compute(&consts(&["[1, 2, 3, 4, 5]"]), &data),
        oj("[null, null, null, null, null]")
    );
}

#[test]
fn map_complex() {
    let data_json = oj(r#"{ "integers": [1, 2, 3, 4, 5] }"#);
    let data = Data::from_json(&data_json);

    assert_eq!(
        jsonlogic::operators::map::compute(
            &vec![
                Expression::from_json(&oj(r#"{ "var": "integers" }"#)).unwrap(),
                Expression::from_json(&oj(r#"{ "*": [{ "var": "" }, 2]}"#)).unwrap(),
            ],
            &data,
        ),
        oj("[2.0, 4.0, 6.0, 8.0, 10.0]")
    );

    assert_eq!(
        jsonlogic::operators::map::compute(
            &vec![
                Expression::from_json(&oj(r#"{ "var": "integerss" }"#)).unwrap(),
                Expression::from_json(&oj(r#"{ "*": [{ "var": "" }, 2]}"#)).unwrap(),
            ],
            &data,
        ),
        oj("[]")
    );
}

#[test]
fn max_test() {
    let null = Json::Null;
    let data = Data::from_json(&null);
    assert_eq!(max::compute(&consts(&[]), &data), Json::Null);
    assert_eq!(max::compute(&consts(&[r#""foo""#]), &data), Json::Null);
    assert_eq!(max::compute(&consts(&[r#""1""#, "-2"]), &data), oj("1.0"));
    assert_eq!(
        max::compute(&consts(&["1", r#""-2""#, r#""foo""#, "-4"]), &data),
        Json::Null
    );
    assert_eq!(max::compute(&consts(&["null"]), &data), oj("0.0"));
    assert_eq!(max::compute(&consts(&["-4"]), &data), oj("-4.0"));
    assert_eq!(max::compute(&consts(&["null", "2", "-4"]), &data), oj("2.0"));
}

#[test]
fn merge_merge() {
    let null = Json::Null;
    let data = Data::from_json(&null);
    assert_eq!(merge::compute(&consts(&[]), &data), oj("[]"));
    assert_eq!(
        merge::compute(&consts(&["[1, 2]", "[3, 4]"]), &data),
        oj("[1, 2, 3, 4]")
    );
    assert_eq!(
        merge::compute(&consts(&["1", "2", "[3, 4]"]), &data),
        oj("[1, 2, 3, 4]")
    );
}

#[test]
fn min_test() {
    let null = Json::Null;
    let data = Data::from_json(&null);
    assert_eq!(min::compute(&consts(&[]), &data), Json::Null);
    assert_eq!(min::compute(&consts(&[r#""foo""#]), &data), Json::Null);
    assert_eq!(min::compute(&consts(&["1", r#""-2""#]), &data), oj("-2.0"));
    assert_eq!(
        min::compute(&consts(&["1", r#""-2""#, r#""foo""#, "-4"]), &data),
        Json::Null
    );
    assert_eq!(min::compute(&consts(&["null"]), &data), oj("0.0"));
    assert_eq!(min::compute(&consts(&["-4"]), &data), oj("-4.0"));
    assert_eq!(min::compute(&consts(&["null", "2", "-4"]), &data), oj("-4.0"));
}

#[test]
fn tests() {
    let data_json = oj(r#"{ "a": 5, "b": "foo" }"#);
    let data = Data::from_json(&data_json);

    assert_eq!(missing::compute(&consts(&[]), &data), oj("[]"));
    assert_eq!(
        missing::compute(&consts(&[r#""bar""#]), &data),
        oj(r#"["bar"]"#)
    );
    assert_eq!(missing::compute(&consts(&[r#""a""#]), &data), oj("[]"));
    assert_eq!(
        missing::compute(&consts(&[r#""a""#, r#""b""#]), &data),
        oj("[]")
    );
    assert_eq!(
        missing::compute(&consts(&[r#""a""#, r#""b""#, r#""c""#]), &data),
        oj(r#"["c"]"#)
    );
}

#[test]
fn first_arg_is_array() {
    let data_json = oj(r#"{ "a": 5, "b": "foo" }"#);
    let data = Data::from_json(&data_json);

    assert_eq!(
        missing::compute(&consts(&[r#"["bar"]"#]), &data),
        oj(r#"["bar"]"#)
    );
    assert_eq!(missing::compute(&consts(&[r#"["a"]"#]), &data), oj("[]"));
    assert_eq!(
        missing::compute(&consts(&[r#"["a", "b"]"#]), &data),
        oj("[]")
    );
    assert_eq!(
        missing::compute(&consts(&[r#"["a", "b", "c"]"#]), &data),
        oj(r#"["c"]"#)
    );
}

#[test]
fn missing_some_test() {
    let data_json = oj(r#"{"a": 5, "b": 6}"#);
    let data = Data::from_json(&data_json);

    assert_eq!(missing_some::compute(&consts(&[]), &data), oj("[]"));
    assert_eq!(missing_some::compute(&consts(&[r#""a""#]), &data), oj("[]"));
    assert_eq!(missing_some::compute(&consts(&["1"]), &data), oj("[]"));
    assert_eq!(
        missing_some::compute(&consts(&["1", "[]"]), &data),
        oj("[]")
    );
    assert_eq!(
        missing_some::compute(&consts(&["0", r#"["a"]"#]), &data),
        oj("[]")
    );
    assert_eq!(
        missing_some::compute(&consts(&["1", r#"["a"]"#]), &data),
        oj("[]")
    );
    assert_eq!(
        missing_some::compute(&consts(&["1", r#"["c"]"#]), &data),
        oj(r#"["c"]"#)
    );
    assert_eq!(
        missing_some::compute(&consts(&["2", r#"["a", "b", "c"]"#]), &data),
        oj("[]")
    );
    assert_eq!(
        missing_some::compute(&consts(&["2", r#"["a", "c", "d"]"#]), &data),
        oj(r#"["c", "d"]"#)
    );

    assert_eq!(
        missing_some::compute(&consts(&["1.9", r#"["a", "b", "d", "e"]"#]), &data),
        oj("[]")
    );
    assert_eq!(
        missing_some::compute(&consts(&["2", r#"["a", "b", "d", "e"]"#]), &data),
        oj("[]")
    );
    assert_eq!(
        missing_some::compute(&consts(&["2.1", r#"["a", "b", "d", "e"]"#]), &data),
        oj(r#"["d", "e"]"#)
    );
}

#[test]
fn modulo_null() {
    let null = Json::Null;
    let data = Data::from_json(&null);
    assert_eq!(modulo::compute(&consts(&[]), &data), Json::Null);
    assert_eq!(modulo::compute(&consts(&[r#""a""#]), &data), Json::Null);
    assert_eq!(modulo::compute(&consts(&["1"]), &data), Json::Null);
    assert_eq!(modulo::compute(&consts(&["1", "0"]), &data), Json::Null);

    assert_eq!(modulo::compute(&consts(&["1", "2"]), &data), oj("1.0"));
    assert_eq!(modulo::compute(&consts(&["101", "2"]), &data), oj("1.0"));
    assert_eq!(modulo::compute(&consts(&["102", "2"]), &data), oj("0.0"));
}

#[test]
fn multiplication_test() {
    let null = Json::Null;
    let data = Data::from_json(&null);
    assert_eq!(multiplication::compute(&consts(&[]), &data), Json::Null);
    assert_eq!(multiplication::compute(&consts(&["null"]), &data), Json::Null);
    assert_eq!(
        multiplication::compute(&consts(&[r#""foo""#]), &data),
        oj(r#""foo""#)
    );
    assert_eq!(
        multiplication::compute(&consts(&[r#""6""#]), &data),
        oj(r#""6""#)
    );
    assert_eq!(multiplication::compute(&consts(&["4", "2"]), &data), oj("8.0"));
    assert_eq!(
        multiplication::compute(&consts(&["4", "2", "2", "2"]), &data),
        oj("32.0")
    );
}

#[test]
fn negation_test() {
    let null = Json::Null;
    let data = Data::from_json(&null);
    assert_eq!(negation::compute(&consts(&[]), &data), oj("true"));
    assert_eq!(negation::compute(&consts(&["null"]), &data), oj("true"));
    assert_eq!(negation::compute(&consts(&["false"]), &data), oj("true"));
    assert_eq!(negation::compute(&consts(&["true"]), &data), oj("false"));
}

#[test]
fn not_equal_default_null() {
    let null = Json::Null;
    let data = Data::from_json(&null);
    assert_eq!(not_equal::compute(&consts(&[]), &data), oj("false"));
    assert_eq!(not_equal::compute(&consts(&["null"]), &data), oj("false"));
}

#[test]
fn not_equal_test() {
    let null = Json::Null;
    let data = Data::from_json(&null);
    assert_eq!(not_equal::compute(&consts(&["null", "null"]), &data), oj("false"));
    assert_eq!(not_equal::compute(&consts(&["1", "1"]), &data), oj("false"));
    assert_eq!(not_equal::compute(&consts(&["1", "2"]), &data), oj("true"));
}

#[test]
fn substr_basic() {
    let null = Json::Null;
    let data = Data::from_json(&null);
    assert_eq!(substr::compute(&consts(&[]), &data), oj(r#""undefined""#));
    assert_eq!(substr::compute(&consts(&["true"]), &data), oj(r#""true""#));
    assert_eq!(
        substr::compute(&consts(&[r#""jsonlogic""#]), &data),
        oj(r#""jsonlogic""#)
    );
    assert_eq!(
        substr::compute(&consts(&[r#""jsonlogic""#, "0"]), &data),
        oj(r#""jsonlogic""#)
    );
    assert_eq!(
        substr::compute(&consts(&[r#""jsonlogic""#, "4"]), &data),
        oj(r#""logic""#)
    );
    assert_eq!(
        substr::compute(&consts(&[r#""jsonlogic""#, "-5"]), &data),
        oj(r#""logic""#)
    );
    assert_eq!(
        substr::compute(&consts(&[r#""jsonlogic""#, "-50"]), &data),
        oj(r#""jsonlogic""#)
    );

    // Positive limit
    assert_eq!(
        substr::compute(&consts(&[r#""y̆""#, "0", "1"]), &data),
        oj(r#""y""#)
    );
    assert_eq!(
        substr::compute(&consts(&[r#""hallo""#, "2", "2"]), &data),
        oj(r#""ll""#)
    );
    assert_eq!(
        substr::compute(&consts(&[r#""äüö""#, "1", "1"]), &data),
        oj(r#""ü""#)
    );

    // Negative limit c, stop at c characters from the end.
    assert_eq!(
        substr::compute(&consts(&[r#""jsonlogic""#, "4", "-2"]), &data),
        oj(r#""log""#)
    );
    assert_eq!(
        substr::compute(&consts(&[r#""jsonlogic""#, "4", "-3"]), &data),
        oj(r#""lo""#)
    );
    assert_eq!(
        substr::compute(&consts(&[r#""jsonlogic""#, "4", "-4"]), &data),
        oj(r#""l""#)
    );
    assert_eq!(
        substr::compute(&consts(&[r#""jsonlogic""#, "4", "-5"]), &data),
        oj(r#""""#)
    );
    assert_eq!(
        substr::compute(&consts(&[r#""jsonlogic""#, "4", "-6"]), &data),
        oj(r#""""#)
    );

    assert_eq!(
        substr::compute(&consts(&[r#""jsonlogic""#, "3", "-2"]), &data),
        oj(r#""nlog""#)
    );

    // If the limit is negative and further out than the length, the result
    // is empty.
    assert_eq!(
        substr::compute(&consts(&[r#""jsonlogic""#, "4", "-20"]), &data),
        oj(r#""""#)
    );
}

#[test]
fn subtraction_null() {
    let null = Json::Null;
    let data = Data::from_json(&null);
    assert_eq!(subtraction::compute(&consts(&[]), &data), Json::Null);
    assert_eq!(subtraction::compute(&consts(&[r#""a""#]), &data), Json::Null);
}

#[test]
fn subtraction_negation() {
    let null = Json::Null;
    let data = Data::from_json(&null);
    assert_eq!(subtraction::compute(&consts(&["1"]), &data), oj("-1.0"));
    assert_eq!(subtraction::compute(&consts(&[r#""""#]), &data), oj("-0.0"));
    assert!(logic::is_strict_equal(
        &subtraction::compute(&consts(&[r#""""#]), &data),
        &oj("0")
    ));
    assert_eq!(subtraction::compute(&consts(&[r#""-5""#]), &data), oj("5.0"));
}

#[test]
fn subtraction_substraction() {
    let null = Json::Null;
    let data = Data::from_json(&null);
    assert_eq!(subtraction::compute(&consts(&["1", "2"]), &data), oj("-1.0"));
    assert_eq!(subtraction::compute(&consts(&["4", "2"]), &data), oj("2.0"));
    assert_eq!(subtraction::compute(&consts(&["4", "-2"]), &data), oj("6.0"));
}

#[test]
fn truthy_truthy_values() {
    // See http://jsonlogic.com/truthy.html
    assert_eq!(logic::is_truthy(&oj("0")), false);
    assert_eq!(logic::is_truthy(&oj("-1")), true);
    assert_eq!(logic::is_truthy(&oj("1")), true);
    assert_eq!(logic::is_truthy(&oj("[]")), false);
    assert_eq!(logic::is_truthy(&oj("[1, 2]")), true);
    assert_eq!(logic::is_truthy(&oj(r#""""#)), false);
    assert_eq!(logic::is_truthy(&oj(r#""anything""#)), true);
    assert_eq!(logic::is_truthy(&oj(r#""0""#)), true);
    assert_eq!(logic::is_truthy(&oj("null")), false);

    assert_eq!(logic::is_truthy(&oj("{}")), true);
    assert_eq!(logic::is_truthy(&oj("true")), true);
    assert_eq!(logic::is_truthy(&oj("false")), false);
}

#[test]
fn invalid_arguments() {
    let data_json = oj(r#"{ "a": 5, "b": 6 }"#);
    let data = Data::from_json(&data_json);
    assert_eq!(variable::compute(&consts(&["[]"]), &data), oj("null"));
    assert_eq!(variable::compute(&consts(&["{}"]), &data), oj("null"));
    assert_eq!(variable::compute(&consts(&["true"]), &data), oj("null"));
    assert_eq!(variable::compute(&consts(&["false"]), &data), oj("null"));
}

#[test]
fn null_arg() {
    let data_json = oj(r#"{ "a": 5, "b": 6 }"#);
    let data = Data::from_json(&data_json);
    assert_eq!(variable::compute(&consts(&[]), &data), data_json);
    assert_eq!(variable::compute(&consts(&["null"]), &data), data_json);
    assert_eq!(variable::compute(&consts(&[r#""""#]), &data), data_json);
    assert_eq!(variable::compute(&consts(&[r#"" ""#]), &data), oj("null"));
    assert_eq!(variable::compute(&consts(&["null", "123"]), &data), data_json);
}

#[test]
fn data_is_object() {
    let data_json = oj(r#"{ "a": 5, "b": 6, "1": 1337 }"#);
    let data = Data::from_json(&data_json);
    assert_eq!(variable::compute(&consts(&[r#""a""#]), &data), oj("5"));
    assert_eq!(variable::compute(&consts(&[r#""b""#]), &data), oj("6"));
    assert_eq!(variable::compute(&consts(&["1"]), &data), oj("1337"));
}

#[test]
fn data_is_string() {
    let data_json = oj(r#""abcderfg""#);
    let data = Data::from_json(&data_json);
    assert_eq!(variable::compute(&consts(&["1"]), &data), oj(r#""b""#));
    assert_eq!(variable::compute(&consts(&[r#""1""#]), &data), oj(r#""b""#));
}

#[test]
fn data_is_array() {
    let data_json = oj(r#"["foo", "bar"]"#);
    let data = Data::from_json(&data_json);
    assert_eq!(variable::compute(&consts(&[]), &data), data_json);
    assert_eq!(variable::compute(&consts(&["0"]), &data), oj(r#""foo""#));
    assert_eq!(variable::compute(&consts(&["1"]), &data), oj(r#""bar""#));
    assert_eq!(variable::compute(&consts(&["2"]), &data), oj("null"));

    assert_eq!(variable::compute(&consts(&[r#""1""#]), &data), oj(r#""bar""#));

    let data_json = oj(r#"[{"foo": "bar"}]"#);
    let data = Data::from_json(&data_json);
    assert_eq!(
        variable::compute(&consts(&["0"]), &data),
        oj(r#"{"foo": "bar"}"#)
    );
}

#[test]
fn default_value_array_data() {
    let data_json = oj(r#"["foo", "bar"]"#);
    let data = Data::from_json(&data_json);

    assert_eq!(
        variable::compute(&consts(&["1", r#""def""#]), &data),
        oj(r#""bar""#)
    );
    assert_eq!(
        variable::compute(&consts(&["2", r#""def""#]), &data),
        oj(r#""def""#)
    );
}

#[test]
fn default_value_obj_data() {
    let data_json = oj(r#"{"foo": "bar"}"#);
    let data = Data::from_json(&data_json);

    assert_eq!(
        variable::compute(&consts(&[r#""foo""#, r#""def""#]), &data),
        oj(r#""bar""#)
    );
    assert_eq!(
        variable::compute(&consts(&[r#""unknown""#, r#""def""#]), &data),
        oj(r#""def""#)
    );
}

#[test]
fn nested_object() {
    let data_json = oj(r#"{ "foo": { "bar": "baz" }}"#);
    let data = Data::from_json(&data_json);

    assert_eq!(variable::compute(&consts(&[r#""foo.""#]), &data), oj("null"));
    assert_eq!(
        variable::compute(&consts(&[r#""foo.bar""#]), &data),
        oj(r#""baz""#)
    );
    assert_eq!(
        variable::compute(&consts(&[r#""foo.bar.baz""#]), &data),
        oj("null")
    );
    assert_eq!(
        variable::compute(&consts(&[r#""foo""#]), &data),
        oj(r#"{ "bar": "baz" }"#)
    );

    let data_json = oj(r#"[{"foo": "bar"}]"#);
    let data = Data::from_json(&data_json);
    assert_eq!(
        variable::compute(&consts(&[r#""0.foo""#]), &data),
        oj(r#""bar""#)
    );
    assert_eq!(variable::compute(&consts(&[r#""1""#]), &data), oj("null"));
    assert_eq!(variable::compute(&consts(&[r#""1.foo""#]), &data), oj("null"));
    assert_eq!(
        variable::compute(&consts(&[r#""0.foo.1""#]), &data),
        oj(r#""a""#)
    );
    assert_eq!(
        variable::compute(&consts(&[r#""0.foo.1.0""#]), &data),
        oj("null")
    );
}
