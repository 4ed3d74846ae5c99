use command_core::value::{JsonValue, Member};

fn member(key: &str, value: JsonValue) -> Member {
    Member { key: key.to_string(), value }
}

#[test]
fn render_scalars() {
    assert_eq!(JsonValue::Null.render(), "null");
    assert_eq!(JsonValue::Bool(true).render(), "true");
    assert_eq!(JsonValue::Bool(false).render(), "false");
}

#[test]
fn render_integers() {
    assert_eq!(JsonValue::Int(0).render(), "0");
    assert_eq!(JsonValue::Int(7).render(), "7");
    assert_eq!(JsonValue::Int(42).render(), "42");
    assert_eq!(JsonValue::Int(1000).render(), "1000");
    assert_eq!(JsonValue::Int(-7).render(), "-7");
    assert_eq!(JsonValue::Int(i64::MAX).render(), "9223372036854775807");
    assert_eq!(JsonValue::Int(i64::MIN).render(), "-9223372036854775808");
}

#[test]
fn render_strings_with_escaping() {
    assert_eq!(JsonValue::Str(String::new()).render(), "\"\"");
    assert_eq!(JsonValue::Str("abc".to_string()).render(), "\"abc\"");
    assert_eq!(JsonValue::Str("a\"b\\c".to_string()).render(), "\"a\\\"b\\\\c\"");
    assert_eq!(JsonValue::Str("caf\u{e9}".to_string()).render(), "\"caf\u{e9}\"");
}

#[test]
fn render_arrays() {
    assert_eq!(JsonValue::Arr(Vec::new()).render(), "[]");
    assert_eq!(JsonValue::Arr(vec![JsonValue::Int(1)]).render(), "[1]");
    let arr = JsonValue::Arr(vec![JsonValue::Int(1), JsonValue::Int(2), JsonValue::Int(3)]);
    assert_eq!(arr.render(), "[1,2,3]");
    let nested = JsonValue::Arr(vec![
        JsonValue::Arr(Vec::new()),
        JsonValue::Arr(vec![JsonValue::Null]),
    ]);
    assert_eq!(nested.render(), "[[],[null]]");
}

#[test]
fn render_objects_in_stored_order() {
    assert_eq!(JsonValue::Obj(Vec::new()).render(), "{}");
    let obj = JsonValue::Obj(vec![
        member("b", JsonValue::Int(2)),
        member("a", JsonValue::Int(1)),
    ]);
    assert_eq!(obj.render(), "{\"b\":2,\"a\":1}");
}

#[test]
fn render_nested_structure() {
    let obj = JsonValue::Obj(vec![
        member("name", JsonValue::Str("probe".to_string())),
        member("tags", JsonValue::Arr(vec![JsonValue::Str("x".to_string()), JsonValue::Bool(true)])),
        member("depth", JsonValue::Obj(vec![member("level", JsonValue::Int(-3))])),
    ]);
    assert_eq!(
        obj.render(),
        "{\"name\":\"probe\",\"tags\":[\"x\",true],\"depth\":{\"level\":-3}}"
    );
}

#[test]
fn render_is_deterministic() {
    let make = || {
        JsonValue::Obj(vec![
            member("k", JsonValue::Arr(vec![JsonValue::Int(5), JsonValue::Null])),
        ])
    };
    assert_eq!(make().render(), make().render());
}
