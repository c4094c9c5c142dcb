use felay_gui::json::Json;
use felay_gui::sanitize::{is_sensitive_key, sanitize_value};

fn s(v: &str) -> Json {
    Json::Str(v.to_string())
}

fn obj(members: Vec<(&str, Json)>) -> Json {
    Json::Object(members.into_iter().map(|(k, v)| (k.to_string(), v)).collect())
}

#[test]
fn sensitive_text_is_masked() {
    let mut doc = obj(vec![("appSecret", s("abc")), ("cwd", s("/home/u"))]);
    sanitize_value(&mut doc);
    assert_eq!(doc, obj(vec![("appSecret", s("***")), ("cwd", s("/home/u"))]));
}

#[test]
fn empty_sensitive_text_is_kept() {
    let mut doc = obj(vec![("encryptKey", s(""))]);
    sanitize_value(&mut doc);
    assert_eq!(doc, obj(vec![("encryptKey", s(""))]));
}

#[test]
fn nested_objects_and_arrays_are_walked() {
    let mut doc = obj(vec![(
        "bots",
        Json::Array(vec![
            obj(vec![("webhookUrl", s("https://x")), ("name", s("a"))]),
            obj(vec![("inner", obj(vec![("client_secret", s("k"))]))]),
        ]),
    )]);
    sanitize_value(&mut doc);
    let expected = obj(vec![(
        "bots",
        Json::Array(vec![
            obj(vec![("webhookUrl", s("***")), ("name", s("a"))]),
            obj(vec![("inner", obj(vec![("client_secret", s("***"))]))]),
        ]),
    )]);
    assert_eq!(doc, expected);
}

#[test]
fn non_text_under_sensitive_name_is_kept() {
    let mut doc = obj(vec![("secret", obj(vec![("secret", s("x"))])), ("webhook", Json::Int(3))]);
    sanitize_value(&mut doc);
    assert_eq!(doc, obj(vec![("secret", obj(vec![("secret", s("x"))])), ("webhook", Json::Int(3))]));
}

#[test]
fn fragments_match_case_sensitively() {
    assert!(is_sensitive_key("appSecret"));
    assert!(is_sensitive_key("mySecretKey") == false);
    assert!(is_sensitive_key("secretToken"));
    assert!(is_sensitive_key("encryptKey"));
    assert!(is_sensitive_key("webhookUrl"));
    assert!(!is_sensitive_key("cwd"));
    assert!(!is_sensitive_key("Webhook"));
}

#[test]
fn scalars_are_left_alone() {
    let mut doc = s("secret");
    sanitize_value(&mut doc);
    assert_eq!(doc, s("secret"));
}
