use congress_rolls::json::parse;
use congress_rolls::paths::{eq_ignoring_ascii_case, is_json_path};
use congress_rolls::responses::Response;
use congress_rolls::senate::{AmendmentSenate, DocumentSenate, ResponseSpecific, VoteCastMap};

fn generic(text: &str) -> Response {
    Response::from_json(&parse(text).unwrap()).unwrap()
}

fn specific(text: &str) -> ResponseSpecific {
    ResponseSpecific::from_json(&parse(text).unwrap()).unwrap()
}

#[test]
fn generic_values_are_shown_for_reading() {
    assert_eq!(generic("null").to_text(), "null");
    assert_eq!(Response::Absent.to_text(), "none");
    assert_eq!(generic("0").to_text(), "0");
    assert_eq!(generic("4294967295").to_text(), "4294967295");
    assert_eq!(generic("\"Yea\"").to_text(), "Yea");
    assert_eq!(generic("[]").to_text(), "[]");
    assert_eq!(generic("{}").to_text(), "{}");
    assert_eq!(generic("[1, \"two\", null]").to_text(), "[1, two, null, ]");
    assert_eq!(generic("{\"b\": 1, \"a\": [\"x\"]}").to_text(), "{a: [x, ], b: 1, }");
}

#[test]
fn senate_values_are_shown_for_reading() {
    assert_eq!(specific("null").to_text(), "null");
    assert_eq!(ResponseSpecific::Absent.to_text(), "none");
    assert_eq!(specific("\"Yea\"").to_text(), "Yea");
    assert_eq!(specific("{\"content\": \"Yea\", \"pair\": \"Smith\"}").to_text(), "{content: Yea, pair: Smith, }");
    assert_eq!(specific("{\"content\": \"Yea\"}").to_text(), "{content: Yea, }");
    let cast = VoteCastMap { name: None, paired_with: None };
    assert_eq!(cast.to_text(), "{}");
    let document = "{\"document_congress\": \"116\", \"document_type\": \"S.\", \"document_number\": 5,
        \"document_name\": null, \"document_title\": [\"t\"]}";
    let shown = "{document_congress: 116, document_type: S., document_number: 5, \
                 document_name: null, document_title: [t, ], document_short_title: null, }";
    assert_eq!(specific(document).to_text(), shown);
    assert_eq!(specific(&format!("[{}]", document)).to_text(), format!("[{}, ]", shown));
    assert_eq!(specific("[]").to_text(), "[]");
    assert_eq!(
        DocumentSenate::default().to_text(),
        "{document_congress: none, document_type: none, document_number: none, \
         document_name: none, document_title: none, document_short_title: null, }"
    );
    let amendment = "{amendment_number: 9, amendment_to_amendment_number: null, \
                     amendment_to_amendment_to_amendment_number: null, \
                     amendment_to_document_number: H.R. 1, \
                     amendment_to_document_short_title: null, amendment_purpose: null, }";
    let text = "{\"amendment_number\": \"9\", \"amendment_to_document_number\": \"H.R. 1\"}";
    assert_eq!(specific(text).to_text(), amendment);
    let two = format!("[{}, {{\"amendment_number\": \"9\", \"document_congress\": 1}}]", text);
    assert!(matches!(specific(&two), ResponseSpecific::ASMap(_)));
    assert!(specific(&two).to_text().starts_with("{{amendment_number: 9, "));
    assert!(specific(&two).to_text().ends_with("amendment_purpose: null, }, }"));
    assert!(AmendmentSenate::default().to_text().starts_with("{amendment_number: null, "));
}

#[test]
fn json_files_are_known_by_their_extension() {
    assert!(is_json_path("data/json/116/house/2/2020_1.json", false));
    assert!(is_json_path("2020_1.json", false));
    assert!(is_json_path("a.b.json", false));
    assert!(!is_json_path("data/json/116/house/2/2020_1.JSON", false));
    assert!(is_json_path("data/json/116/house/2/2020_1.JSON", true));
    assert!(is_json_path("x.Json", true));
    assert!(!is_json_path("x.jso", true));
    assert!(!is_json_path("x.jsonx", true));
    assert!(!is_json_path("json", true));
    assert!(!is_json_path(".json", true));
    assert!(is_json_path("..json", true));
    assert!(!is_json_path("x.json/y", true));
    assert!(!is_json_path("x.json/", true));
    assert!(!is_json_path("", true));
    for path in ["a.json", "a.JSON", "a.txt", ".json", "a", "a.b.json", "dir.json/a", "a."] {
        let std_says = std::path::Path::new(path).extension().and_then(|e| e.to_str());
        assert_eq!(is_json_path(path, false), std_says == Some("json"), "{}", path);
        assert_eq!(
            is_json_path(path, true),
            std_says.map(|e| e.eq_ignore_ascii_case("json")).unwrap_or(false),
            "{}",
            path
        );
    }
}

#[test]
fn texts_are_compared_without_regard_to_ascii_case() {
    assert!(eq_ignoring_ascii_case("JSON", "json"));
    assert!(eq_ignoring_ascii_case("", ""));
    assert!(!eq_ignoring_ascii_case("json", "jsom"));
    assert!(!eq_ignoring_ascii_case("json", "jso"));
    // only the letters of ASCII are folded
    assert!(!eq_ignoring_ascii_case("É", "é"));
    assert!(!eq_ignoring_ascii_case("@", "`"));
    assert!(!eq_ignoring_ascii_case("[", "{"));
    for (a, b) in [("aZ", "Az"), ("k", "K"), ("K", "\u{212a}"), ("a1", "A1")] {
        assert_eq!(eq_ignoring_ascii_case(a, b), a.eq_ignore_ascii_case(b));
    }
}
