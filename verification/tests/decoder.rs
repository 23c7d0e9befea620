use congress_rolls::json::{parse, to_text, JsonValue};
use congress_rolls::responses::Response;
use congress_rolls::senate::{DocumentSenate, ResponseSpecific, SenateFile};

fn generic(text: &str) -> Option<Response> {
    Response::from_json(&parse(text).unwrap())
}

fn specific(text: &str) -> Option<ResponseSpecific> {
    ResponseSpecific::from_json(&parse(text).unwrap())
}

#[test]
fn json_is_read_part_for_part() {
    let document = parse(r#"{"b": [1, -2, 2.5, true, null], "a": "x"}"#).unwrap();
    match &document {
        JsonValue::Object(members) => {
            // members stand in the order of their names
            assert_eq!(members.len(), 2);
            assert_eq!(members[0].name, "a");
            assert!(matches!(&members[0].value, JsonValue::Text(s) if s == "x"));
            assert_eq!(members[1].name, "b");
            match &members[1].value {
                JsonValue::Array(items) => {
                    assert_eq!(items.len(), 5);
                    assert!(matches!(&items[0], JsonValue::Number(n) if n == "1"));
                    assert!(matches!(&items[1], JsonValue::Number(n) if n == "-2"));
                    assert!(matches!(&items[2], JsonValue::Number(n) if n == "2.5"));
                    assert!(matches!(&items[3], JsonValue::Bool(true)));
                    assert!(matches!(&items[4], JsonValue::Null));
                },
                other => panic!("not an array: {:?}", other),
            }
        },
        other => panic!("not an object: {:?}", other),
    }
    assert_eq!(to_text(&document), r#"{"a":"x","b":[1,-2,2.5,true,null]}"#);
    let copy = document.duplicate();
    assert_eq!(format!("{:?}", copy), format!("{:?}", document));
}

#[test]
fn malformed_json_is_reported() {
    let error = parse("{\"a\": ").err().unwrap();
    assert!(!error.message.is_empty());
    assert!(parse("").is_err());
    assert!(parse("{} x").is_err());
}

#[test]
fn generic_profile_decodes_each_kind() {
    assert!(matches!(generic("null"), Some(Response::Null)));
    assert!(matches!(generic("0"), Some(Response::U32(0))));
    assert!(matches!(generic("4294967295"), Some(Response::U32(4294967295))));
    assert!(matches!(generic("\"Yea\""), Some(Response::String(s)) if s == "Yea"));
    // a text that looks like a number or like null stays a text
    assert!(matches!(generic("\"12\""), Some(Response::String(s)) if s == "12"));
    assert!(matches!(generic("\"null\""), Some(Response::String(s)) if s == "null"));
    assert!(matches!(generic("\"\""), Some(Response::String(s)) if s.is_empty()));
    match generic(r#"{"k": 1, "j": "v", "n": null}"#) {
        Some(Response::Mapping(entries)) => {
            assert_eq!(entries.len(), 3);
            assert_eq!(entries[0].key, "j");
            assert!(matches!(&entries[0].value, Response::String(s) if s == "v"));
            assert_eq!(entries[1].key, "k");
            assert!(matches!(&entries[1].value, Response::U32(1)));
            assert_eq!(entries[2].key, "n");
            assert!(matches!(&entries[2].value, Response::Null));
        },
        other => panic!("not a mapping: {:?}", other),
    }
    match generic(r#"[1, "two", [3], {}]"#) {
        Some(Response::List(items)) => {
            assert_eq!(items.len(), 4);
            assert!(matches!(&items[0], Response::U32(1)));
            assert!(matches!(&items[1], Response::String(s) if s == "two"));
            assert!(matches!(&items[2], Response::List(inner) if inner.len() == 1));
            assert!(matches!(&items[3], Response::Mapping(inner) if inner.is_empty()));
        },
        other => panic!("not a list: {:?}", other),
    }
    assert!(matches!(generic("[]"), Some(Response::List(items)) if items.is_empty()));
}

#[test]
fn generic_profile_rejects_what_has_no_alternative() {
    assert!(generic("true").is_none());
    assert!(generic("false").is_none());
    assert!(generic("-1").is_none());
    assert!(generic("1.5").is_none());
    assert!(generic("1e2").is_none());
    assert!(generic("4294967296").is_none());
    assert!(generic("[1, true]").is_none());
    assert!(generic(r#"{"a": {"b": [false]}}"#).is_none());
    // a number literal that serde_json does not write is no number either
    assert!(Response::from_json(&JsonValue::Number("+5".to_string())).is_none());
    assert!(Response::from_json(&JsonValue::Number("".to_string())).is_none());
}

#[test]
fn absent_is_the_default_and_never_decoded() {
    assert!(matches!(Response::default(), Response::Absent));
    assert!(matches!(ResponseSpecific::default(), ResponseSpecific::Null));
    assert!(!matches!(generic("null"), Some(Response::Absent)));
    assert!(!matches!(generic("\"none\""), Some(Response::Absent)));
}

#[test]
fn response_copies_are_equal() {
    let value = generic(r#"{"a": [1, "x", null, {"b": []}]}"#).unwrap();
    assert_eq!(format!("{:?}", value.duplicate()), format!("{:?}", value));
}

#[test]
fn senate_profile_prefers_text_then_vote_then_document_then_amendment() {
    assert!(matches!(specific("null"), Some(ResponseSpecific::Null)));
    assert!(matches!(specific("\"Yea\""), Some(ResponseSpecific::String(s)) if s == "Yea"));
    match specific(r#"{"content": "Yea", "pair": "Smith"}"#) {
        Some(ResponseSpecific::VoteCastMap(cast)) => {
            assert_eq!(cast.name.as_deref(), Some("Yea"));
            assert_eq!(cast.paired_with.as_deref(), Some("Smith"));
        },
        other => panic!("not a vote: {:?}", other),
    }
    match specific(r#"{"pair": null, "more": 1}"#) {
        Some(ResponseSpecific::VoteCastMap(cast)) => {
            assert_eq!(cast.name, None);
            assert_eq!(cast.paired_with, None);
        },
        other => panic!("not a vote: {:?}", other),
    }
    let document = r#"{"document_congress": "116", "document_type": "S.", "document_number": 5,
        "document_name": "S. 5", "document_title": null, "document_short_title": "short"}"#;
    match specific(document) {
        Some(ResponseSpecific::DocumentSenate(d)) => {
            assert!(matches!(&d.document_congress, Response::String(s) if s == "116"));
            assert!(matches!(&d.document_number, Response::U32(5)));
            assert!(matches!(&d.document_title, Response::Null));
            assert_eq!(d.document_short_title.as_deref(), Some("short"));
        },
        other => panic!("not a document: {:?}", other),
    }
    // an object that names a vote is a vote even if it holds a document
    let both = document.replacen('{', "{\"content\": \"Yea\", ", 1);
    assert!(matches!(specific(&both), Some(ResponseSpecific::VoteCastMap(_))));
    // an object that names a vote of another kind falls through to the document
    let odd = document.replacen('{', "{\"content\": 7, ", 1);
    assert!(matches!(specific(&odd), Some(ResponseSpecific::DocumentSenate(_))));
    // an object without all five fields of a document is an amendment
    match specific(r#"{"amendment_number": "S.Amdt. 1", "document_congress": "116"}"#) {
        Some(ResponseSpecific::AmendmentSenate(a)) => {
            assert_eq!(a.amendment_number.as_deref(), Some("S.Amdt. 1"));
            assert!(a.amendment_purpose.is_none());
        },
        other => panic!("not an amendment: {:?}", other),
    }
    assert!(matches!(specific("{}"), Some(ResponseSpecific::AmendmentSenate(_))));
    assert!(specific(r#"{"amendment_number": 1}"#).is_none());
}

#[test]
fn senate_profile_decodes_lists_of_documents_before_lists_of_amendments() {
    let document = r#"{"document_congress": "116", "document_type": "S.", "document_number": 5,
        "document_name": "S. 5", "document_title": "title"}"#;
    let list = format!("[{}, {}]", document, document);
    assert!(matches!(specific(&list), Some(ResponseSpecific::DSMap(l)) if l.len() == 2));
    assert!(matches!(specific("[]"), Some(ResponseSpecific::DSMap(l)) if l.is_empty()));
    let mixed = format!("[{}, {{\"amendment_number\": \"1\"}}]", document);
    assert!(matches!(specific(&mixed), Some(ResponseSpecific::ASMap(l)) if l.len() == 2));
    assert!(specific("[1]").is_none());
    assert!(specific("true").is_none());
    assert!(specific("3").is_none());
}

#[test]
fn records_need_their_required_fields() {
    let full = r#"{"document_congress": 1, "document_type": 2, "document_number": 3,
        "document_name": 4, "document_title": 5}"#;
    assert!(DocumentSenate::from_json(&parse(full).unwrap()).is_some());
    for missing in
        ["document_congress", "document_type", "document_number", "document_name", "document_title"]
    {
        let without = full.replace(missing, "other");
        assert!(DocumentSenate::from_json(&parse(&without).unwrap()).is_none(), "{}", missing);
    }
    assert!(DocumentSenate::from_json(&parse("[1, 2, 3, 4, 5, null]").unwrap()).is_none());
    let title = full.replacen('{', "{\"document_short_title\": 1, ", 1);
    assert!(DocumentSenate::from_json(&parse(&title).unwrap()).is_none());
    assert!(SenateFile::from_json(&parse("{}").unwrap()).is_none());
    assert!(SenateFile::from_json(&parse(r#"{"roll_call_vote": null}"#).unwrap()).is_none());
    let document = DocumentSenate::from_json(&parse(full).unwrap()).unwrap();
    assert_eq!(format!("{:?}", document.duplicate()), format!("{:?}", document));
    let empty = DocumentSenate::default();
    assert!(matches!(empty.document_congress, Response::Absent));
    assert!(empty.document_short_title.is_none());
}
