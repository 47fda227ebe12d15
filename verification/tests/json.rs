use registry_relay::json::{Json, JsonNumber, JsonObject};

fn object(fields: Vec<(&str, Json)>) -> Json {
    let mut object = JsonObject::new();
    for (key, value) in fields {
        object.insert(key.to_string(), value);
    }
    Json::Object(object)
}

fn text(s: &str) -> Json {
    Json::Text(s.to_string())
}

#[test]
fn object_fields_are_set_read_and_taken() {
    let mut fields = JsonObject::new();
    assert!(fields.get("a").is_none());
    fields.insert("a".to_string(), Json::Bool(true));
    fields.insert("b".to_string(), Json::Null);
    fields.insert("a".to_string(), text("x"));
    assert!(fields.get("a").expect("a field").same(&text("x")));
    assert!(fields.remove("a").expect("a field").same(&text("x")));
    assert!(fields.remove("a").is_none());
    assert!(fields.get("b").expect("a field").same(&Json::Null));
}

#[test]
fn objects_are_equal_whatever_the_order() {
    let a = object(vec![("kty", text("OKP")), ("x", text("k"))]);
    let b = object(vec![("x", text("k")), ("kty", text("OKP"))]);
    assert!(a.same(&b) && b.same(&a));
    let c = object(vec![("kty", text("OKP"))]);
    assert!(!a.same(&c) && !c.same(&a));
    let d = object(vec![("kty", text("OKP")), ("x", text("l"))]);
    assert!(!a.same(&d));
    let e = object(vec![("kty", text("OKP")), ("y", text("k"))]);
    assert!(!a.same(&e));
}

#[test]
fn arrays_are_equal_item_by_item() {
    let a = Json::Array(vec![Json::Bool(true), Json::Null]);
    assert!(a.same(&a.clone()));
    assert!(!a.same(&Json::Array(vec![Json::Null, Json::Bool(true)])));
    assert!(!a.same(&Json::Array(vec![Json::Bool(true)])));
}

#[test]
fn numbers_are_equal_by_kind_and_value() {
    let one = Json::Number(JsonNumber::PosInt(1));
    assert!(one.same(&Json::Number(JsonNumber::PosInt(1))));
    assert!(!one.same(&Json::Number(JsonNumber::Float(1.0f64.to_bits()))));
    assert!(!one.same(&Json::Number(JsonNumber::NegInt(-1))));
    let zero = Json::Number(JsonNumber::Float(0.0f64.to_bits()));
    let minus_zero = Json::Number(JsonNumber::Float((-0.0f64).to_bits()));
    assert!(zero.same(&minus_zero));
    assert!(!zero.same(&Json::Number(JsonNumber::Float(0.5f64.to_bits()))));
    assert!(!zero.same(&Json::Number(JsonNumber::PosInt(0))));
}

#[test]
fn values_of_different_types_differ() {
    assert!(!Json::Null.same(&Json::Bool(false)));
    assert!(!text("1").same(&Json::Number(JsonNumber::PosInt(1))));
    assert!(!object(vec![]).same(&Json::Array(vec![])));
}

#[test]
fn clone_is_equal() {
    let value = object(vec![
        ("a", Json::Array(vec![text("x"), object(vec![("b", Json::Number(JsonNumber::NegInt(-3)))])])),
        ("c", Json::Bool(false)),
    ]);
    assert!(value.clone().same(&value));
}

#[test]
fn entries_hold_each_field_once() {
    let mut fields = JsonObject::new();
    fields.insert("b".to_string(), Json::Null);
    fields.insert("a".to_string(), Json::Bool(true));
    fields.insert("b".to_string(), text("x"));
    let mut entries = fields.into_entries();
    entries.sort_by(|x, y| x.0.cmp(&y.0));
    assert_eq!(entries.len(), 2);
    assert_eq!(entries[0].0, "a");
    assert!(entries[0].1.same(&Json::Bool(true)));
    assert_eq!(entries[1].0, "b");
    assert!(entries[1].1.same(&text("x")));
}
