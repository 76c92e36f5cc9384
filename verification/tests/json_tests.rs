use hotaru::json::{parse_json, JsonValue};

#[test]
fn parses_scalars() {
    assert_eq!(parse_json("null"), Some(JsonValue::Null));
    assert_eq!(parse_json(" true "), Some(JsonValue::Bool(true)));
    assert_eq!(parse_json("false"), Some(JsonValue::Bool(false)));
    assert_eq!(parse_json("42"), Some(JsonValue::Num("42".into())));
    assert_eq!(parse_json("-0.5e+3"), Some(JsonValue::Num("-0.5e+3".into())));
    assert_eq!(parse_json("\"hi\""), Some(JsonValue::Str("hi".into())));
}

#[test]
fn parses_nested_structures() {
    let v = parse_json(r#"{"a": [1, {"b": "c"}], "d": {}}"#).unwrap();
    match v {
        JsonValue::Obj(ps) => {
            assert_eq!(ps.len(), 2);
            assert_eq!(ps[0].0, "a");
            match &ps[0].1 {
                JsonValue::Arr(xs) => {
                    assert_eq!(xs.len(), 2);
                    assert_eq!(xs[0], JsonValue::Num("1".into()));
                    match &xs[1] {
                        JsonValue::Obj(inner) => {
                            assert_eq!(inner[0].0, "b");
                            assert_eq!(inner[0].1, JsonValue::Str("c".into()));
                        }
                        other => panic!("expected an object, got {:?}", other),
                    }
                }
                other => panic!("expected an array, got {:?}", other),
            }
            assert_eq!(ps[1].1, JsonValue::Obj(vec![]));
        }
        other => panic!("expected an object, got {:?}", other),
    }
}

#[test]
fn decodes_escapes() {
    assert_eq!(
        parse_json(r#""a\"b\\c\/d\n\t\r\b\f""#),
        Some(JsonValue::Str("a\"b\\c/d\n\t\r\u{8}\u{c}".into()))
    );
    assert_eq!(
        parse_json(r#""café A""#),
        Some(JsonValue::Str("café A".into()))
    );
}

#[test]
fn rejects_malformed_documents() {
    assert_eq!(parse_json(""), None);
    assert_eq!(parse_json("{"), None);
    assert_eq!(parse_json("[1,]"), None);
    assert_eq!(parse_json("{\"a\" 1}"), None);
    assert_eq!(parse_json("tru"), None);
    assert_eq!(parse_json("01"), None);
    assert_eq!(parse_json("1."), None);
    assert_eq!(parse_json("\"unterminated"), None);
    assert_eq!(parse_json("\"bad \\x escape\""), None);
    assert_eq!(parse_json("null null"), None);
    // A surrogate escape is not a code point of its own.
    assert_eq!(parse_json(r#""\uD83D\uDE00""#), None);
}

#[test]
fn astral_characters_pass_through_literally() {
    assert_eq!(parse_json(r#""😀""#), Some(JsonValue::Str("😀".into())));
}

#[test]
fn whitespace_is_insignificant() {
    let compact = parse_json(r#"{"a":[true,null]}"#);
    let spaced = parse_json("  {\n\t\"a\" : [ true , null ]\r\n}  ");
    assert!(compact.is_some());
    assert_eq!(compact, spaced);
}

#[test]
fn nesting_is_limited() {
    // 200 nested arrays exceed the depth bound and are rejected
    // cleanly, instead of exhausting the stack.
    let mut deep = String::new();
    for _ in 0..200 {
        deep.push('[');
    }
    for _ in 0..200 {
        deep.push(']');
    }
    assert_eq!(parse_json(&deep), None);

    let mut ok = String::new();
    for _ in 0..100 {
        ok.push('[');
    }
    for _ in 0..100 {
        ok.push(']');
    }
    assert!(parse_json(&ok).is_some());
}

#[test]
fn long_flat_documents_parse() {
    let mut doc = String::from("[");
    for i in 0..1000 {
        if i > 0 {
            doc.push(',');
        }
        doc.push('1');
    }
    doc.push(']');
    match parse_json(&doc) {
        Some(JsonValue::Arr(xs)) => assert_eq!(xs.len(), 1000),
        other => panic!("expected an array, got {:?}", other),
    }
}

#[test]
fn long_strings_parse() {
    let mut doc = String::from("\"");
    for _ in 0..2000 {
        doc.push_str("ab\\n");
    }
    doc.push('"');
    match parse_json(&doc) {
        Some(JsonValue::Str(text)) => assert_eq!(text.len(), 6000),
        other => panic!("expected a string, got {:?}", other),
    }
}
