use media_content::json::{Json, JsonNumber};

fn s(x: &str) -> Json {
    Json::Str(x.to_string())
}

fn obj(members: Vec<(&str, Json)>) -> Json {
    Json::Object(members.into_iter().map(|(k, v)| (k.to_string(), v)).collect())
}

#[test]
fn member_lookup() {
    let j = obj(vec![("a", s("x")), ("b", Json::Bool(true)), ("a", s("y"))]);
    assert!(matches!(j.get("a"), Some(Json::Str(v)) if v == "x"));
    assert_eq!(j.get("b").and_then(|v| v.as_bool()), Some(true));
    assert!(j.get("c").is_none());
    assert!(s("a").get("a").is_none());
}

#[test]
fn kinds() {
    let n = Json::Number(JsonNumber { as_u64: Some(7), text: "7".to_string() });
    assert_eq!(n.as_u64(), Some(7));
    assert!(n.as_number().is_some());
    assert!(n.as_str().is_none());
    let f = Json::Number(JsonNumber { as_u64: None, text: "7.5".to_string() });
    assert_eq!(f.as_u64(), None);
    assert_eq!(s("q").as_str(), Some("q"));
    assert_eq!(Json::Array(vec![Json::Null]).as_array().map(|a| a.len()), Some(1));
    assert!(obj(vec![]).as_object().is_some());
    assert!(Json::Null.as_object().is_none());
}
