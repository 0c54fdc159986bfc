use resend_client_rs::headers::{is_header_value, same_header_name, Headers};
use resend_client_rs::json::{no_fields, put, put_optional, FromJson, Json, ToJson};
use resend_client_rs::text::{joined, same_text};

#[test]
fn json_text_is_read_into_values() {
    let json = Json::parse(r#"{"a":[1,-2,3.5,"x",null,true],"b":{"c":18446744073709551615}}"#)
        .unwrap();
    let items = json.field("a").unwrap().items().unwrap();
    assert!(matches!(items[0], Json::Number(1)));
    assert!(matches!(&items[1], Json::Decimal(text) if text == "-2"));
    assert!(matches!(&items[2], Json::Decimal(text) if text == "3.5"));
    assert!(matches!(&items[3], Json::Str(text) if text == "x"));
    assert!(matches!(items[4], Json::Null));
    assert!(matches!(items[5], Json::Bool(true)));
    assert!(matches!(
        json.field("b").unwrap().field("c"),
        Some(Json::Number(18446744073709551615))
    ));
    assert!(json.field("missing").is_none());
    assert!(items[0].field("a").is_none());
}

#[test]
fn text_that_is_not_json_is_refused() {
    assert!(Json::parse("").is_none());
    assert!(Json::parse("{").is_none());
    assert!(Json::parse(r#"{"a":1} trailing"#).is_none());
}

#[test]
fn values_are_written_as_json_text() {
    let json = Json::Object(vec![
        ("z".to_string(), Json::Str("a\"b".to_string())),
        ("n".to_string(), Json::Decimal("-1.5e3".to_string())),
        ("l".to_string(), Json::Array(vec![])),
    ]);
    assert_eq!(
        json.to_text().as_deref(),
        Some(r#"{"z":"a\"b","n":-1500.0,"l":[]}"#)
    );
    assert_eq!(Json::Decimal("1x".to_string()).to_text(), None);
    assert_eq!(Json::Null.to_text().as_deref(), Some("null"));
}

#[test]
fn written_text_reads_back() {
    let text = r#"{"a":[1,"x",null,true],"b":{"c":"d"}}"#;
    let json = Json::parse(text).unwrap();
    assert_eq!(json.to_text().as_deref(), Some(text));
    assert_eq!(json.duplicate().to_text().as_deref(), Some(text));
    assert_eq!(json.to_json().to_text().as_deref(), Some(text));
    assert_eq!(Json::from_json(&json).unwrap().to_text().as_deref(), Some(text));
}

#[test]
fn field_accessors_tell_types_apart() {
    let json = Json::parse(
        r#"{"s":"text","n":65535,"big":65536,"b":false,"nil":null,"l":["a","b"],"m":["a",null]}"#,
    )
    .unwrap();
    assert_eq!(json.text_at("s").as_deref(), Some("text"));
    assert_eq!(json.text_at("n"), None);
    assert_eq!(json.small_at("n"), Some(65535));
    assert_eq!(json.small_at("big"), None);
    assert_eq!(json.small_at("s"), None);
    assert_eq!(json.flag_at("b"), Some(false));
    assert_eq!(json.flag_at("s"), None);
    assert!(json.field("nil").is_some());
    assert!(json.present("nil").is_none());
    assert_eq!(json.optional_text_at("nil"), Some(None));
    assert_eq!(json.optional_text_at("absent"), Some(None));
    assert_eq!(json.optional_text_at("s"), Some(Some("text".to_string())));
    assert_eq!(json.optional_text_at("n"), None);
    assert_eq!(json.optional_small_at("n"), Some(Some(65535)));
    assert_eq!(json.optional_small_at("nil"), Some(None));
    assert_eq!(json.optional_small_at("s"), None);
    assert_eq!(
        json.texts_at("l"),
        Some(vec!["a".to_string(), "b".to_string()])
    );
    assert_eq!(json.texts_at("m"), None);
    assert_eq!(
        json.optional_texts_at("m"),
        Some(Some(vec![Some("a".to_string()), None]))
    );
    assert_eq!(json.optional_texts_at("nil"), Some(None));
    assert_eq!(json.optional_texts_at("s"), None);
}

#[test]
fn first_field_of_a_name_counts() {
    let json = Json::Object(vec![
        ("k".to_string(), Json::Number(1)),
        ("k".to_string(), Json::Number(2)),
    ]);
    assert!(matches!(json.field("k"), Some(Json::Number(1))));
}

#[test]
fn fields_are_put_in_order() {
    let mut fields = no_fields();
    put(&mut fields, "a", Json::Number(1));
    put_optional(&mut fields, "b", None);
    put_optional(&mut fields, "c", Some(Json::Bool(true)));
    assert_eq!(
        Json::object(fields).to_text().as_deref(),
        Some(r#"{"a":1,"c":true}"#)
    );
    assert_eq!(
        Json::array(vec![Json::string("x")]).to_text().as_deref(),
        Some(r#"["x"]"#)
    );
    assert_eq!(
        Json::byte_list(&vec![0, 255]).to_text().as_deref(),
        Some("[0,255]")
    );
    assert_eq!(
        Json::optional_small(Some(10)).to_text().as_deref(),
        Some("10")
    );
    assert_eq!(Json::optional_small(None).to_text().as_deref(), Some("null"));
}

#[test]
fn header_names_ignore_ascii_case() {
    assert!(same_header_name("Content-Type", "content-type"));
    assert!(same_header_name("ACCEPT", "accept"));
    assert!(!same_header_name("Accept", "Accepts"));
    assert!(!same_header_name("Accept", "Accepd"));
    assert!(!same_header_name("\u{e4}", "\u{c4}"));
    assert!(same_header_name("", ""));
}

#[test]
fn header_values_are_checked_byte_by_byte() {
    assert!(is_header_value("application/json"));
    assert!(is_header_value(""));
    assert!(is_header_value("a\tb"));
    assert!(is_header_value("caf\u{e9}"));
    assert!(!is_header_value("a\nb"));
    assert!(!is_header_value("a\u{0}b"));
    assert!(!is_header_value("a\u{1f}"));
    assert!(!is_header_value("\u{7f}"));
}

#[test]
fn header_set_holds_one_value_for_each_name() {
    let mut headers = Headers::new();
    assert!(headers.get("X-A").is_none());
    headers.insert("X-A".to_string(), "1".to_string());
    headers.insert("X-B".to_string(), "2".to_string());
    headers.insert("x-a".to_string(), "3".to_string());
    assert_eq!(headers.get("X-A").map(|v| v.as_str()), Some("3"));
    assert_eq!(headers.get("x-b").map(|v| v.as_str()), Some("2"));
    assert_eq!(headers.entries().len(), 2);
    assert_eq!(headers.entries()[0], ("x-a".to_string(), "3".to_string()));
    assert!(headers.values_ok());
    let copy = headers.duplicate();
    headers.insert("X-C".to_string(), "bad\n".to_string());
    assert!(!headers.values_ok());
    assert!(copy.values_ok());
    assert_eq!(copy.entries().len(), 2);
}

#[test]
fn texts_are_compared_and_joined() {
    assert!(same_text("abc", "abc"));
    assert!(!same_text("abc", "abd"));
    assert!(!same_text("abc", "ab"));
    assert!(same_text("", ""));
    assert!(!same_text("\u{e9}", "e"));
    assert_eq!(joined("emails/", "mock-id"), "emails/mock-id");
    assert_eq!(joined("", ""), "");
}
