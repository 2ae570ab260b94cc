use kid_videos::json::{decode_json, Json};

fn number(text: &str) -> Json {
    Json::Number(text.to_string())
}

#[test]
fn members_are_found_by_key() {
    let doc = Json::Object(vec![
        ("a".to_string(), Json::Bool(true)),
        ("b".to_string(), number("2")),
    ]);
    assert!(matches!(doc.member("a"), Some(Json::Bool(true))));
    assert!(matches!(doc.member("b"), Some(Json::Number(_))));
    assert!(doc.member("c").is_none());
    assert!(Json::Null.member("a").is_none());
    assert!(Json::Array(vec![]).member("a").is_none());
}

#[test]
fn values_are_read_by_their_kind() {
    assert_eq!(Json::Bool(false).as_bool(), Some(false));
    assert_eq!(Json::Text("true".to_string()).as_bool(), None);
    assert_eq!(Json::Text("x".to_string()).as_text().map(|s| s.as_str()), Some("x"));
    assert!(number("1").as_text().is_none());
    assert_eq!(Json::Array(vec![Json::Null, Json::Null]).items().map(|v| v.len()), Some(2));
    assert!(Json::Object(vec![]).items().is_none());
}

#[test]
fn whole_numbers_are_read_as_unsigned() {
    assert_eq!(number("0").as_unsigned(), Some(0));
    assert_eq!(number("64").as_unsigned(), Some(64));
    assert_eq!(number("18446744073709551615").as_unsigned(), Some(u64::MAX));
    assert_eq!(number("18446744073709551616").as_unsigned(), None);
    assert_eq!(number("-64").as_unsigned(), None);
    assert_eq!(number("256.0").as_unsigned(), None);
    assert_eq!(number("").as_unsigned(), None);
    assert_eq!(Json::Text("64".to_string()).as_unsigned(), None);
}

#[test]
fn decimal_numbers_are_scaled_and_rounded_down() {
    assert_eq!(number("85").scaled(0, 100), Some(85));
    assert_eq!(number("85.9").scaled(0, 100), Some(85));
    assert_eq!(number("100").scaled(0, 100), Some(100));
    assert_eq!(number("100.5").scaled(0, 100), Some(100));
    assert_eq!(number("101").scaled(0, 100), None);
    assert_eq!(number("0.85").scaled(2, 100), Some(85));
    assert_eq!(number("0.859").scaled(2, 100), Some(85));
    assert_eq!(number("0.8").scaled(2, 100), Some(80));
    assert_eq!(number("1").scaled(2, 100), Some(100));
    assert_eq!(number("1.0").scaled(2, 100), Some(100));
    assert_eq!(number("1.01").scaled(2, 100), None);
    assert_eq!(number("12.345").scaled(3, 100000), Some(12345));
    assert_eq!(number("4294967295").scaled(0, u32::MAX), Some(u32::MAX));
    assert_eq!(number("4294967296").scaled(0, u32::MAX), None);
    assert_eq!(number("99999999999999999999999999").scaled(0, 100), None);
}

#[test]
fn other_number_texts_are_not_scaled() {
    assert_eq!(number("-1").scaled(0, 100), None);
    assert_eq!(number("1e2").scaled(0, 100), None);
    assert_eq!(number("1.").scaled(0, 100), None);
    assert_eq!(number(".5").scaled(0, 100), None);
    assert_eq!(number("1.2.3").scaled(0, 100), None);
    assert_eq!(number("").scaled(0, 100), None);
    assert_eq!(Json::Text("85".to_string()).scaled(0, 100), None);
    assert_eq!(Json::Null.scaled(0, 100), None);
}

#[test]
fn text_is_read_into_a_document() {
    let doc = decode_json(r#"{"b": [1, 2.5, "x", null, true], "a": {"k": -3}}"#).unwrap();
    let members = match doc {
        Json::Object(members) => members,
        other => panic!("unexpected document {:?}", other),
    };
    assert_eq!(members.len(), 2);
    let b = members.iter().find(|(k, _)| k == "b").map(|(_, v)| v).unwrap();
    match b {
        Json::Array(items) => {
            assert_eq!(items.len(), 5);
            assert!(matches!(&items[0], Json::Number(n) if n == "1"));
            assert!(matches!(&items[1], Json::Number(n) if n == "2.5"));
            assert!(matches!(&items[2], Json::Text(t) if t == "x"));
            assert!(matches!(&items[3], Json::Null));
            assert!(matches!(&items[4], Json::Bool(true)));
        },
        other => panic!("unexpected value {:?}", other),
    }
    let a = members.iter().find(|(k, _)| k == "a").map(|(_, v)| v).unwrap();
    assert!(matches!(a.member("k"), Some(Json::Number(n)) if n == "-3"));
}

#[test]
fn numbers_are_held_as_their_text() {
    let texts = [("85", "85"), ("85.0", "85.0"), ("85.50", "85.5"), ("1e2", "100.0"), ("-0", "-0.0")];
    for (written, held) in texts {
        match decode_json(written) {
            Some(Json::Number(n)) => assert_eq!(n, held, "{}", written),
            other => panic!("unexpected document {:?}", other),
        }
    }
    assert_eq!(decode_json("85.9").unwrap().scaled(0, 100), Some(85));
    assert_eq!(decode_json("0.85").unwrap().scaled(2, 100), Some(85));
    assert_eq!(decode_json("18446744073709551615").unwrap().as_unsigned(), Some(u64::MAX));
    assert_eq!(decode_json("18446744073709551616").unwrap().as_unsigned(), None);
}

#[test]
fn a_repeated_key_is_read_once() {
    let doc = decode_json(r#"{"a": 1, "a": 2}"#).unwrap();
    match &doc {
        Json::Object(members) => assert_eq!(members.len(), 1),
        other => panic!("unexpected document {:?}", other),
    }
    assert_eq!(doc.member("a").and_then(|v| v.as_unsigned()), Some(2));
}

#[test]
fn what_is_not_json_is_no_document() {
    assert!(decode_json("").is_none());
    assert!(decode_json("{").is_none());
    assert!(decode_json("{\"a\": }").is_none());
    assert!(decode_json("hello").is_none());
    assert!(decode_json("[1, 2] trailing").is_none());
    assert!(matches!(decode_json("null"), Some(Json::Null)));
    assert!(matches!(decode_json(" [] "), Some(Json::Array(items)) if items.is_empty()));
}
