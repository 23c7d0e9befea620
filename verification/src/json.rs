//! JSON documents as plain data.
//!
//! Text is read and written by `serde_json`; everything in between works on
//! `JsonValue`, whose mathematical model is `JsonView`.
use crate::text::text_eq;
use vstd::prelude::*;

verus! {

/// A JSON document. A number is held as the literal that writes it; the
/// members of an object are held in order, each with its name.
#[derive(Debug)]
pub enum JsonValue {
    Null,
    Bool(bool),
    Number(String),
    Text(String),
    Array(Vec<JsonValue>),
    Object(Vec<JsonMember>),
}

/// One member of a JSON object.
#[derive(Debug)]
pub struct JsonMember {
    pub name: String,
    pub value: JsonValue,
}

/// The mathematical model of a `JsonValue`.
pub enum JsonView {
    Null,
    Bool(bool),
    Number(Seq<char>),
    Text(Seq<char>),
    Array(Seq<JsonView>),
    Object(Seq<JsonMemberView>),
}

/// The mathematical model of a `JsonMember`.
pub struct JsonMemberView {
    pub name: Seq<char>,
    pub value: JsonView,
}

impl DeepView for JsonValue {
    type V = JsonView;

    open spec fn deep_view(&self) -> JsonView
        decreases self,
    {
        match self {
            JsonValue::Null => JsonView::Null,
            JsonValue::Bool(b) => JsonView::Bool(*b),
            JsonValue::Number(n) => JsonView::Number(n@),
            JsonValue::Text(s) => JsonView::Text(s@),
            JsonValue::Array(items) => JsonView::Array(
                Seq::new(
                    items@.len(),
                    |i: int|
                        if 0 <= i < items@.len() {
                            items@[i].deep_view()
                        } else {
                            JsonView::Null
                        },
                ),
            ),
            JsonValue::Object(members) => JsonView::Object(
                Seq::new(
                    members@.len(),
                    |i: int|
                        if 0 <= i < members@.len() {
                            JsonMemberView {
                                name: members@[i].name@,
                                value: members@[i].value.deep_view(),
                            }
                        } else {
                            JsonMemberView { name: Seq::empty(), value: JsonView::Null }
                        },
                ),
            ),
        }
    }
}

impl DeepView for JsonMember {
    type V = JsonMemberView;

    open spec fn deep_view(&self) -> JsonMemberView {
        JsonMemberView { name: self.name@, value: self.value.deep_view() }
    }
}

/// The model of a list of documents.
pub open spec fn views_of(items: Seq<JsonValue>) -> Seq<JsonView> {
    Seq::new(items.len(), |i: int| items[i].deep_view())
}

/// The model of the members of an object.
pub open spec fn member_views(members: Seq<JsonMember>) -> Seq<JsonMemberView> {
    Seq::new(
        members.len(),
        |i: int| JsonMemberView { name: members[i].name@, value: members[i].value.deep_view() },
    )
}

/// The models of arrays and objects are those of their parts, in order.
pub proof fn lemma_json_view(v: JsonValue)
    ensures
        v matches JsonValue::Array(items) ==> v.deep_view() == JsonView::Array(views_of(items@)),
        v matches JsonValue::Object(members) ==> v.deep_view() == JsonView::Object(
            member_views(members@),
        ),
{
    match v {
        JsonValue::Array(items) => {
            assert(v.deep_view()->Array_0 =~= views_of(items@));
        },
        JsonValue::Object(members) => {
            assert(v.deep_view()->Object_0 =~= member_views(members@));
        },
        _ => {},
    }
}

/// The first member of an object that is called `key`.
pub open spec fn member(members: Seq<JsonMemberView>, key: Seq<char>) -> Option<JsonView>
    decreases members.len(),
{
    if members.len() == 0 {
        None
    } else if members[0].name == key {
        Some(members[0].value)
    } else {
        member(members.skip(1), key)
    }
}

/// The first member of an object that is called `key`.
pub fn find_member<'a>(members: &'a Vec<JsonMember>, key: &str) -> (r: Option<
    &'a JsonValue,
>)
    ensures
        match r {
            Some(v) => member(member_views(members@), key@) == Some(v.deep_view()),
            None => member(member_views(members@), key@) is None,
        },
{
    let ghost all = member_views(members@);
    let mut i: usize = 0;
    assert(all.skip(0) == all);
    while i < members.len()
        invariant
            i <= members@.len(),
            all == member_views(members@),
            member(all, key@) == member(all.skip(i as int), key@),
        decreases members@.len() - i,
    {
        let ghost rest = all.skip(i as int);
        assert(rest[0] == all[i as int]);
        assert(rest.skip(1) == all.skip(i + 1));
        if text_eq(members[i].name.as_str(), key) {
            return Some(&members[i].value);
        }
        i += 1;
    }
    None
}

/// `serde_json`'s document type, which only the conversions below look into.
#[verifier::external_type_specification]
#[verifier::external_body]
pub struct ExSerdeValue(serde_json::Value);

/// `serde_json`'s error type.
#[verifier::external_type_specification]
#[verifier::external_body]
pub struct ExSerdeError(serde_json::Error);

/// The document that `serde_json` reads from a text, `None` where it reports
/// an error. Members of an object stand in the order of their names, each
/// name once; a number is held as `serde_json` writes it.
pub uninterp spec fn json_document(text: Seq<char>) -> Option<JsonView>;

/// The text that `serde_json` writes for a document, without line breaks or
/// indentation.
pub uninterp spec fn json_text(v: JsonView) -> Seq<char>;

/// The bytes that `serde_json` writes for a document, indented for reading.
pub uninterp spec fn json_pretty(v: JsonView) -> Seq<u8>;

/// Conversion of a `serde_json::Value` into a `JsonValue`, part for part.
/// A number becomes the literal that `serde_json::Number` displays. Nothing
/// is claimed of the result here; `read_document` names it.
#[verifier::external_body]
fn from_serde(v: serde_json::Value) -> JsonValue {
    match v {
        serde_json::Value::Null => JsonValue::Null,
        serde_json::Value::Bool(b) => JsonValue::Bool(b),
        serde_json::Value::Number(n) => JsonValue::Number(n.to_string()),
        serde_json::Value::String(s) => JsonValue::Text(s),
        serde_json::Value::Array(a) => JsonValue::Array(a.into_iter().map(from_serde).collect()),
        serde_json::Value::Object(m) => JsonValue::Object(
            m.into_iter().map(|(k, v)| JsonMember { name: k, value: from_serde(v) }).collect(),
        ),
    }
}

/// Conversion of a `JsonValue` into a `serde_json::Value`, part for part. A
/// number literal that `serde_json::Number` does not accept becomes `null`.
#[verifier::external_body]
fn to_serde(v: &JsonValue) -> serde_json::Value {
    match v {
        JsonValue::Null => serde_json::Value::Null,
        JsonValue::Bool(b) => serde_json::Value::Bool(*b),
        JsonValue::Number(n) => n.parse::<serde_json::Number>().map(
            serde_json::Value::Number,
        ).unwrap_or(serde_json::Value::Null),
        JsonValue::Text(s) => serde_json::Value::String(s.clone()),
        JsonValue::Array(a) => serde_json::Value::Array(a.iter().map(to_serde).collect()),
        JsonValue::Object(m) => serde_json::Value::Object(
            m.iter().map(|e| (e.name.clone(), to_serde(&e.value))).collect(),
        ),
    }
}

/// `serde_json::from_str`, read into a `serde_json::Value` and converted.
///
/// Trusted: the parser reads nothing but the text, so it succeeds exactly
/// where `json_document` is defined and then gives that document.
#[verifier::external_body]
fn read_document(text: &str) -> (r: Result<JsonValue, serde_json::Error>)
    ensures
        match r {
            Ok(v) => json_document(text@) == Some(v.deep_view()),
            Err(_) => json_document(text@) is None,
        },
{
    serde_json::from_str::<serde_json::Value>(text).map(from_serde)
}

/// The message of a `serde_json::Error`, as its `Display` writes it.
#[verifier::external_body]
fn error_message(e: &serde_json::Error) -> String {
    e.to_string()
}

/// `serde_json::to_string` on the converted document.
///
/// Trusted: the writer reads nothing but the document and cannot fail on a
/// `serde_json::Value`, so it gives the text that `json_text` names.
#[verifier::external_body]
pub(crate) fn write_compact(v: &JsonValue) -> (r: String)
    ensures
        r@ == json_text(v.deep_view()),
{
    serde_json::to_string(&to_serde(v)).unwrap_or_default()
}

/// `serde_json::to_vec_pretty` on the converted document.
///
/// Trusted: as for `write_compact`, with the bytes that `json_pretty` names.
#[verifier::external_body]
pub(crate) fn write_pretty(v: &JsonValue) -> (r: Vec<u8>)
    ensures
        r@ == json_pretty(v.deep_view()),
{
    serde_json::to_vec_pretty(&to_serde(v)).unwrap_or_default()
}

/// Why a text is no JSON document.
#[derive(Debug)]
pub struct JsonError {
    /// The parser's description of the first fault, with its place in the text.
    pub message: String,
}

/// Reads a JSON document from `text`.
pub fn parse(text: &str) -> (r: Result<JsonValue, JsonError>)
    ensures
        match r {
            Ok(v) => json_document(text@) == Some(v.deep_view()),
            Err(_) => json_document(text@) is None,
        },
{
    match read_document(text) {
        Ok(v) => Ok(v),
        Err(e) => Err(JsonError { message: error_message(&e) }),
    }
}

/// The text of a document, without line breaks or indentation.
pub fn to_text(v: &JsonValue) -> (r: String)
    ensures
        r@ == json_text(v.deep_view()),
{
    write_compact(v)
}

impl JsonValue {
    /// A copy of this document.
    pub fn duplicate(&self) -> (r: JsonValue)
        ensures
            r.deep_view() == self.deep_view(),
    {
        JsonValue::copy_of(self)
    }

    fn copy_of(this: &JsonValue) -> (r: JsonValue)
        ensures
            r.deep_view() == this.deep_view(),
        decreases this,
    {
        proof {
            lemma_json_view(*this);
        }
        match this {
            JsonValue::Null => JsonValue::Null,
            JsonValue::Bool(b) => JsonValue::Bool(*b),
            JsonValue::Number(n) => JsonValue::Number(n.clone()),
            JsonValue::Text(s) => JsonValue::Text(s.clone()),
            JsonValue::Array(items) => {
                let mut out: Vec<JsonValue> = Vec::new();
                let mut i: usize = 0;
                while i < items.len()
                    invariant
                        i <= items@.len(),
                        *this == JsonValue::Array(*items),
                        this.deep_view() == JsonView::Array(views_of(items@)),
                        views_of(out@) == views_of(items@).take(i as int),
                    decreases items@.len() - i,
                {
                    let ghost before = views_of(out@);
                    let x = JsonValue::copy_of(&items[i]);
                    out.push(x);
                    assert(views_of(out@) =~= before.push(x.deep_view()));
                    assert(views_of(items@).take(i + 1) =~= views_of(items@).take(i as int).push(
                        items@[i as int].deep_view(),
                    ));
                    i += 1;
                }
                assert(views_of(items@).take(i as int) == views_of(items@));
                let r = JsonValue::Array(out);
                proof {
                    lemma_json_view(r);
                }
                r
            },
            JsonValue::Object(members) => {
                let mut out: Vec<JsonMember> = Vec::new();
                let mut i: usize = 0;
                while i < members.len()
                    invariant
                        i <= members@.len(),
                        *this == JsonValue::Object(*members),
                        this.deep_view() == JsonView::Object(member_views(members@)),
                        member_views(out@) == member_views(members@).take(i as int),
                    decreases members@.len() - i,
                {
                    let ghost before = member_views(out@);
                    let x = JsonMember {
                        name: members[i].name.clone(),
                        value: JsonValue::copy_of(&members[i].value),
                    };
                    let ghost added = x.deep_view();
                    out.push(x);
                    assert(member_views(out@) =~= before.push(added));
                    assert(member_views(members@).take(i + 1) =~= member_views(members@).take(
                        i as int,
                    ).push(members@[i as int].deep_view()));
                    i += 1;
                }
                assert(member_views(members@).take(i as int) == member_views(members@));
                let r = JsonValue::Object(out);
                proof {
                    lemma_json_view(r);
                }
                r
            },
        }
    }
}

/// A copy of the members of an object.
pub fn duplicate_members(members: &Vec<JsonMember>) -> (r: Vec<JsonMember>)
    ensures
        r.deep_view() == members.deep_view(),
{
    let mut out: Vec<JsonMember> = Vec::new();
    let mut i: usize = 0;
    while i < members.len()
        invariant
            i <= members@.len(),
            out@.len() == i,
            forall|j: int| 0 <= j < i ==>
                (#[trigger] out@[j]).deep_view() == members@[j].deep_view(),
        decreases members@.len() - i,
    {
        out.push(
            JsonMember {
                name: members[i].name.clone(),
                value: JsonValue::copy_of(&members[i].value),
            },
        );
        i += 1;
    }
    assert(out.deep_view() =~= members.deep_view());
    out
}

} // verus!
