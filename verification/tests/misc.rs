use jsonlogic::apply;
use jsonlogic::json::{Entry, Json, Num};
use serde_json::Value;

fn mc(v: &Value) -> Json {
    match v {
        Value::Null => Json::Null,
        Value::Bool(b) => Json::Bool(*b),
        Value::Number(n) => Json::Num(if let Some(u) = n.as_u64() {
            Num::PosInt(u)
        } else if let Some(i) = n.as_i64() {
            Num::NegInt(i)
        } else {
            Num::Float(n.to_string())
        }),
        Value::String(s) => Json::Str(s.clone()),
        Value::Array(a) => Json::Arr(a.iter().map(mc).collect()),
        Value::Object(o) => Json::Obj(
            o.iter()
                .map(|(k, v)| Entry {
                    key: k.clone(),
                    value: mc(v),
                })
                .collect(),
        ),
    }
}

fn mj(s: &str) -> Json {
    mc(&serde_json::from_str(s).unwrap())
}

fn mapply(rule: &str, data: &str) -> Result<Json, String> {
    apply(&mj(rule), &mj(data))
}

#[test]
fn log() {
    assert_eq!(mapply(r#"{ "log": "foo" }"#, "null"), Ok(mj(r#""foo""#)));
    assert_eq!(mapply(r#"{ "log": ["foo"] }"#, "null"), Ok(mj(r#""foo""#)));
    assert_eq!(
        mapply(r#"{ "log": ["foo", "bar"] }"#, "null"),
        Ok(mj(r#""foo""#))
    );
}
