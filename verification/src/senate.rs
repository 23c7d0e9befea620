//! Roll calls as the Senate publishes them.
//!
//! Each record comes with its mathematical model, with the rule that says
//! which JSON values hold such a record, and with the decoder that follows
//! the rule.
use crate::fields::{
    dup_opt_text, opt_response, opt_response_field, opt_text, opt_text_field, optional,
    optional_field, req_response, req_response_field, req_text, req_text_field,
};
use crate::json::{
    duplicate_members, find_member, lemma_json_view, member, views_of, JsonMember, JsonMemberView,
    JsonValue, JsonView,
};
use crate::responses::{Response, ResponseView};
use vstd::prelude::*;

verus! {

/// A vote that is published with the name of the senator it was paired with.
#[derive(Debug)]
pub struct VoteCastMap {
    /// How the senator voted.
    pub name: Option<String>,
    /// The senator with whom the vote was paired.
    pub paired_with: Option<String>,
}

/// The mathematical model of a `VoteCastMap`.
pub struct VoteCastMapView {
    pub name: Option<Seq<char>>,
    pub paired_with: Option<Seq<char>>,
}

impl DeepView for VoteCastMap {
    type V = VoteCastMapView;

    open spec fn deep_view(&self) -> VoteCastMapView {
        VoteCastMapView {
            name: self.name.deep_view(),
            paired_with: self.paired_with.deep_view(),
        }
    }
}

impl Default for VoteCastMap {
    fn default() -> (r: Self)
        ensures
            r.deep_view() == VoteCastMap::default_view(),
    {
        VoteCastMap {
            name: None,
            paired_with: None,
        }
    }
}

/// The `VoteCastMap` that a JSON value holds: an object whose members have the
/// shapes that the fields ask for. Members with other names are passed over.
pub open spec fn decode_vote_cast_map(v: JsonView) -> Option<VoteCastMapView> {
    match v {
        JsonView::Object(m) => {
            let name = opt_text(m, "content"@);
            let paired_with = opt_text(m, "pair"@);
            if name is Some && paired_with is Some {
                Some(
                    VoteCastMapView {
                        name: name->0,
                        paired_with: paired_with->0,
                    },
                )
            } else {
                None
            }
        },
        _ => None,
    }
}

impl VoteCastMap {
    /// The model of the value that `default` gives.
    pub open spec fn default_view() -> VoteCastMapView {
        VoteCastMapView {
            name: None,
            paired_with: None,
        }
    }

    /// Decodes a JSON value.
    pub fn from_json(v: &JsonValue) -> (r: Option<VoteCastMap>)
        ensures
            r.deep_view() == decode_vote_cast_map(v.deep_view()),
    {
        proof {
            lemma_json_view(*v);
        }
        match v {
            JsonValue::Object(members) => {
                let name = match opt_text_field(members, "content") {
                    Some(x) => x,
                    None => {
                        return None;
                    },
                };
                let paired_with = match opt_text_field(members, "pair") {
                    Some(x) => x,
                    None => {
                        return None;
                    },
                };
                Some(VoteCastMap {
                    name,
                    paired_with,
                })
            },
            _ => None,
        }
    }

    /// A copy of this value.
    pub fn duplicate(&self) -> (r: VoteCastMap)
        ensures
            r.deep_view() == self.deep_view(),
    {
        VoteCastMap {
            name: dup_opt_text(&self.name),
            paired_with: dup_opt_text(&self.paired_with),
        }
    }
}

/// The measure that the Senate voted on.
#[derive(Debug)]
pub struct DocumentSenate {
    pub document_congress: Response,
    pub document_type: Response,
    pub document_number: Response,
    pub document_name: Response,
    pub document_title: Response,
    pub document_short_title: Option<String>,
}

/// The mathematical model of a `DocumentSenate`.
pub struct DocumentSenateView {
    pub document_congress: ResponseView,
    pub document_type: ResponseView,
    pub document_number: ResponseView,
    pub document_name: ResponseView,
    pub document_title: ResponseView,
    pub document_short_title: Option<Seq<char>>,
}

impl DeepView for DocumentSenate {
    type V = DocumentSenateView;

    open spec fn deep_view(&self) -> DocumentSenateView {
        DocumentSenateView {
            document_congress: self.document_congress.deep_view(),
            document_type: self.document_type.deep_view(),
            document_number: self.document_number.deep_view(),
            document_name: self.document_name.deep_view(),
            document_title: self.document_title.deep_view(),
            document_short_title: self.document_short_title.deep_view(),
        }
    }
}

impl Default for DocumentSenate {
    fn default() -> (r: Self)
        ensures
            r.deep_view() == DocumentSenate::default_view(),
    {
        DocumentSenate {
            document_congress: Response::Absent,
            document_type: Response::Absent,
            document_number: Response::Absent,
            document_name: Response::Absent,
            document_title: Response::Absent,
            document_short_title: None,
        }
    }
}

/// The `DocumentSenate` that a JSON value holds: an object whose members have the
/// shapes that the fields ask for. Members with other names are passed over.
pub open spec fn decode_document_senate(v: JsonView) -> Option<DocumentSenateView> {
    match v {
        JsonView::Object(m) => {
            let document_congress = req_response(m, "document_congress"@);
            let document_type = req_response(m, "document_type"@);
            let document_number = req_response(m, "document_number"@);
            let document_name = req_response(m, "document_name"@);
            let document_title = req_response(m, "document_title"@);
            let document_short_title = opt_text(m, "document_short_title"@);
            if document_congress is Some && document_type is Some && document_number is Some
                && document_name is Some && document_title is Some && document_short_title is Some {
                Some(
                    DocumentSenateView {
                        document_congress: document_congress->0,
                        document_type: document_type->0,
                        document_number: document_number->0,
                        document_name: document_name->0,
                        document_title: document_title->0,
                        document_short_title: document_short_title->0,
                    },
                )
            } else {
                None
            }
        },
        _ => None,
    }
}

/// The items of an array, each a `DocumentSenate`; `None` if one of them is not.
pub open spec fn decode_document_senate_list(
    items: Seq<JsonView>,
) -> Option<Seq<DocumentSenateView>>
    decreases items.len(),
{
    if items.len() == 0 {
        Some(Seq::empty())
    } else {
        match (
            decode_document_senate_list(items.drop_last()),
            decode_document_senate(items.last()),
        ) {
            (Some(head), Some(x)) => Some(head.push(x)),
            _ => None,
        }
    }
}

/// A list whose beginning holds something else than a `DocumentSenate` is no list of them.
pub proof fn lemma_decode_document_senate_list_prefix(items: Seq<JsonView>, k: int)
    requires
        0 <= k <= items.len(),
        decode_document_senate_list(items.take(k)) is None,
    ensures
        decode_document_senate_list(items) is None,
    decreases items.len() - k,
{
    if k < items.len() {
        assert(items.take(k + 1).drop_last() == items.take(k));
        lemma_decode_document_senate_list_prefix(items, k + 1);
    } else {
        assert(items.take(k) == items);
    }
}

impl DocumentSenate {
    /// The model of the value that `default` gives.
    pub open spec fn default_view() -> DocumentSenateView {
        DocumentSenateView {
            document_congress: ResponseView::Absent,
            document_type: ResponseView::Absent,
            document_number: ResponseView::Absent,
            document_name: ResponseView::Absent,
            document_title: ResponseView::Absent,
            document_short_title: None,
        }
    }

    /// Decodes a JSON value.
    pub fn from_json(v: &JsonValue) -> (r: Option<DocumentSenate>)
        ensures
            r.deep_view() == decode_document_senate(v.deep_view()),
    {
        proof {
            lemma_json_view(*v);
        }
        match v {
            JsonValue::Object(members) => {
                let document_congress = match req_response_field(members, "document_congress") {
                    Some(x) => x,
                    None => {
                        return None;
                    },
                };
                let document_type = match req_response_field(members, "document_type") {
                    Some(x) => x,
                    None => {
                        return None;
                    },
                };
                let document_number = match req_response_field(members, "document_number") {
                    Some(x) => x,
                    None => {
                        return None;
                    },
                };
                let document_name = match req_response_field(members, "document_name") {
                    Some(x) => x,
                    None => {
                        return None;
                    },
                };
                let document_title = match req_response_field(members, "document_title") {
                    Some(x) => x,
                    None => {
                        return None;
                    },
                };
                let document_short_title = match opt_text_field(members, "document_short_title") {
                    Some(x) => x,
                    None => {
                        return None;
                    },
                };
                Some(DocumentSenate {
                    document_congress,
                    document_type,
                    document_number,
                    document_name,
                    document_title,
                    document_short_title,
                })
            },
            _ => None,
        }
    }

    /// A copy of this value.
    pub fn duplicate(&self) -> (r: DocumentSenate)
        ensures
            r.deep_view() == self.deep_view(),
    {
        DocumentSenate {
            document_congress: self.document_congress.duplicate(),
            document_type: self.document_type.duplicate(),
            document_number: self.document_number.duplicate(),
            document_name: self.document_name.duplicate(),
            document_title: self.document_title.duplicate(),
            document_short_title: dup_opt_text(&self.document_short_title),
        }
    }

    /// Decodes the items of an array.
    pub fn list_from_json(items: &Vec<JsonValue>) -> (r: Option<Vec<DocumentSenate>>)
        ensures
            r.deep_view() == decode_document_senate_list(views_of(items@)),
    {
        let ghost want = views_of(items@);
        let mut out: Vec<DocumentSenate> = Vec::new();
        let mut i: usize = 0;
        assert(want.take(0) == Seq::<JsonView>::empty());
        assert(out.deep_view() =~= Seq::<DocumentSenateView>::empty());
        while i < items.len()
            invariant
                i <= items@.len(),
                want == views_of(items@),
                decode_document_senate_list(want.take(i as int)) == Some(out.deep_view()),
            decreases items@.len() - i,
        {
            proof {
                assert(want[i as int] == items@[i as int].deep_view());
                assert(want.take(i + 1).drop_last() == want.take(i as int));
                assert(want.take(i + 1).last() == want[i as int]);
            }
            match DocumentSenate::from_json(&items[i]) {
                Some(x) => {
                    let ghost before = out.deep_view();
                    let ghost added = x.deep_view();
                    out.push(x);
                    assert(out.deep_view() =~= before.push(added));
                },
                None => {
                    proof {
                        lemma_decode_document_senate_list_prefix(want, i + 1);
                    }
                    return None;
                },
            }
            i += 1;
        }
        assert(want.take(i as int) == want);
        Some(out)
    }

    /// A copy of a list.
    pub fn duplicate_list(items: &Vec<DocumentSenate>) -> (r: Vec<DocumentSenate>)
        ensures
            r.deep_view() == items.deep_view(),
    {
        let mut out: Vec<DocumentSenate> = Vec::new();
        let mut i: usize = 0;
        while i < items.len()
            invariant
                i <= items@.len(),
                out@.len() == i,
                forall|j: int| 0 <= j < i ==>
                    (#[trigger] out@[j]).deep_view() == items@[j].deep_view(),
            decreases items@.len() - i,
        {
            out.push(items[i].duplicate());
            i += 1;
        }
        assert(out.deep_view() =~= items.deep_view());
        out
    }
}

/// The amendment that the Senate voted on.
#[derive(Debug)]
pub struct AmendmentSenate {
    pub amendment_number: Option<String>,
    pub amendment_to_amendment_number: Option<Response>,
    pub amendment_to_amendment_to_amendment_number: Option<Response>,
    pub amendment_to_document_number: Option<Response>,
    pub amendment_to_document_short_title: Option<Response>,
    pub amendment_purpose: Option<String>,
}

/// The mathematical model of a `AmendmentSenate`.
pub struct AmendmentSenateView {
    pub amendment_number: Option<Seq<char>>,
    pub amendment_to_amendment_number: Option<ResponseView>,
    pub amendment_to_amendment_to_amendment_number: Option<ResponseView>,
    pub amendment_to_document_number: Option<ResponseView>,
    pub amendment_to_document_short_title: Option<ResponseView>,
    pub amendment_purpose: Option<Seq<char>>,
}

impl DeepView for AmendmentSenate {
    type V = AmendmentSenateView;

    open spec fn deep_view(&self) -> AmendmentSenateView {
        AmendmentSenateView {
            amendment_number: self.amendment_number.deep_view(),
            amendment_to_amendment_number: self.amendment_to_amendment_number.deep_view(),
            amendment_to_amendment_to_amendment_number: self.amendment_to_amendment_to_amendment_number.deep_view(),
            amendment_to_document_number: self.amendment_to_document_number.deep_view(),
            amendment_to_document_short_title: self.amendment_to_document_short_title.deep_view(),
            amendment_purpose: self.amendment_purpose.deep_view(),
        }
    }
}

impl Default for AmendmentSenate {
    fn default() -> (r: Self)
        ensures
            r.deep_view() == AmendmentSenate::default_view(),
    {
        AmendmentSenate {
            amendment_number: None,
            amendment_to_amendment_number: None,
            amendment_to_amendment_to_amendment_number: None,
            amendment_to_document_number: None,
            amendment_to_document_short_title: None,
            amendment_purpose: None,
        }
    }
}

/// The `AmendmentSenate` that a JSON value holds: an object whose members have the
/// shapes that the fields ask for. Members with other names are passed over.
pub open spec fn decode_amendment_senate(v: JsonView) -> Option<AmendmentSenateView> {
    match v {
        JsonView::Object(m) => {
            let amendment_number = opt_text(m, "amendment_number"@);
            let amendment_to_amendment_number = opt_response(m, "amendment_to_amendment_number"@);
            let amendment_to_amendment_to_amendment_number = opt_response(
                m,
                "amendment_to_amendment_to_amendment_number"@,
            );
            let amendment_to_document_number = opt_response(m, "amendment_to_document_number"@);
            let amendment_to_document_short_title = opt_response(
                m,
                "amendment_to_document_short_title"@,
            );
            let amendment_purpose = opt_text(m, "amendment_purpose"@);
            if amendment_number is Some && amendment_to_amendment_number is Some
                && amendment_to_amendment_to_amendment_number is Some
                && amendment_to_document_number is Some
                && amendment_to_document_short_title is Some && amendment_purpose is Some {
                Some(
                    AmendmentSenateView {
                        amendment_number: amendment_number->0,
                        amendment_to_amendment_number: amendment_to_amendment_number->0,
                        amendment_to_amendment_to_amendment_number: amendment_to_amendment_to_amendment_number->0,
                        amendment_to_document_number: amendment_to_document_number->0,
                        amendment_to_document_short_title: amendment_to_document_short_title->0,
                        amendment_purpose: amendment_purpose->0,
                    },
                )
            } else {
                None
            }
        },
        _ => None,
    }
}

/// The items of an array, each a `AmendmentSenate`; `None` if one of them is not.
pub open spec fn decode_amendment_senate_list(
    items: Seq<JsonView>,
) -> Option<Seq<AmendmentSenateView>>
    decreases items.len(),
{
    if items.len() == 0 {
        Some(Seq::empty())
    } else {
        match (
            decode_amendment_senate_list(items.drop_last()),
            decode_amendment_senate(items.last()),
        ) {
            (Some(head), Some(x)) => Some(head.push(x)),
            _ => None,
        }
    }
}

/// A list whose beginning holds something else than a `AmendmentSenate` is no list of them.
pub proof fn lemma_decode_amendment_senate_list_prefix(items: Seq<JsonView>, k: int)
    requires
        0 <= k <= items.len(),
        decode_amendment_senate_list(items.take(k)) is None,
    ensures
        decode_amendment_senate_list(items) is None,
    decreases items.len() - k,
{
    if k < items.len() {
        assert(items.take(k + 1).drop_last() == items.take(k));
        lemma_decode_amendment_senate_list_prefix(items, k + 1);
    } else {
        assert(items.take(k) == items);
    }
}

impl AmendmentSenate {
    /// The model of the value that `default` gives.
    pub open spec fn default_view() -> AmendmentSenateView {
        AmendmentSenateView {
            amendment_number: None,
            amendment_to_amendment_number: None,
            amendment_to_amendment_to_amendment_number: None,
            amendment_to_document_number: None,
            amendment_to_document_short_title: None,
            amendment_purpose: None,
        }
    }

    /// Decodes a JSON value.
    pub fn from_json(v: &JsonValue) -> (r: Option<AmendmentSenate>)
        ensures
            r.deep_view() == decode_amendment_senate(v.deep_view()),
    {
        proof {
            lemma_json_view(*v);
        }
        match v {
            JsonValue::Object(members) => {
                let amendment_number = match opt_text_field(members, "amendment_number") {
                    Some(x) => x,
                    None => {
                        return None;
                    },
                };
                let amendment_to_amendment_number = match opt_response_field(
                    members,
                    "amendment_to_amendment_number",
                ) {
                    Some(x) => x,
                    None => {
                        return None;
                    },
                };
                let amendment_to_amendment_to_amendment_number = match opt_response_field(
                    members,
                    "amendment_to_amendment_to_amendment_number",
                ) {
                    Some(x) => x,
                    None => {
                        return None;
                    },
                };
                let amendment_to_document_number = match opt_response_field(
                    members,
                    "amendment_to_document_number",
                ) {
                    Some(x) => x,
                    None => {
                        return None;
                    },
                };
                let amendment_to_document_short_title = match opt_response_field(
                    members,
                    "amendment_to_document_short_title",
                ) {
                    Some(x) => x,
                    None => {
                        return None;
                    },
                };
                let amendment_purpose = match opt_text_field(members, "amendment_purpose") {
                    Some(x) => x,
                    None => {
                        return None;
                    },
                };
                Some(AmendmentSenate {
                    amendment_number,
                    amendment_to_amendment_number,
                    amendment_to_amendment_to_amendment_number,
                    amendment_to_document_number,
                    amendment_to_document_short_title,
                    amendment_purpose,
                })
            },
            _ => None,
        }
    }

    /// A copy of this value.
    pub fn duplicate(&self) -> (r: AmendmentSenate)
        ensures
            r.deep_view() == self.deep_view(),
    {
        AmendmentSenate {
            amendment_number: dup_opt_text(&self.amendment_number),
            amendment_to_amendment_number: match &self.amendment_to_amendment_number {
                Some(x) => Some(x.duplicate()),
                None => None,
            },
            amendment_to_amendment_to_amendment_number: match &self.amendment_to_amendment_to_amendment_number {
                Some(x) => Some(x.duplicate()),
                None => None,
            },
            amendment_to_document_number: match &self.amendment_to_document_number {
                Some(x) => Some(x.duplicate()),
                None => None,
            },
            amendment_to_document_short_title: match &self.amendment_to_document_short_title {
                Some(x) => Some(x.duplicate()),
                None => None,
            },
            amendment_purpose: dup_opt_text(&self.amendment_purpose),
        }
    }

    /// Decodes the items of an array.
    pub fn list_from_json(items: &Vec<JsonValue>) -> (r: Option<Vec<AmendmentSenate>>)
        ensures
            r.deep_view() == decode_amendment_senate_list(views_of(items@)),
    {
        let ghost want = views_of(items@);
        let mut out: Vec<AmendmentSenate> = Vec::new();
        let mut i: usize = 0;
        assert(want.take(0) == Seq::<JsonView>::empty());
        assert(out.deep_view() =~= Seq::<AmendmentSenateView>::empty());
        while i < items.len()
            invariant
                i <= items@.len(),
                want == views_of(items@),
                decode_amendment_senate_list(want.take(i as int)) == Some(out.deep_view()),
            decreases items@.len() - i,
        {
            proof {
                assert(want[i as int] == items@[i as int].deep_view());
                assert(want.take(i + 1).drop_last() == want.take(i as int));
                assert(want.take(i + 1).last() == want[i as int]);
            }
            match AmendmentSenate::from_json(&items[i]) {
                Some(x) => {
                    let ghost before = out.deep_view();
                    let ghost added = x.deep_view();
                    out.push(x);
                    assert(out.deep_view() =~= before.push(added));
                },
                None => {
                    proof {
                        lemma_decode_amendment_senate_list_prefix(want, i + 1);
                    }
                    return None;
                },
            }
            i += 1;
        }
        assert(want.take(i as int) == want);
        Some(out)
    }

    /// A copy of a list.
    pub fn duplicate_list(items: &Vec<AmendmentSenate>) -> (r: Vec<AmendmentSenate>)
        ensures
            r.deep_view() == items.deep_view(),
    {
        let mut out: Vec<AmendmentSenate> = Vec::new();
        let mut i: usize = 0;
        while i < items.len()
            invariant
                i <= items@.len(),
                out@.len() == i,
                forall|j: int| 0 <= j < i ==>
                    (#[trigger] out@[j]).deep_view() == items@[j].deep_view(),
            decreases items@.len() - i,
        {
            out.push(items[i].duplicate());
            i += 1;
        }
        assert(out.deep_view() =~= items.deep_view());
        out
    }
}

/// What a field of the Senate holds where it may be a text, a vote with its
/// pairing, one document or amendment, or a list of them. The decoder tries
/// the alternatives in the order in which they stand here. `Absent` stands
/// for a field that the document does not have; no JSON value decodes to it.
#[derive(Debug)]
pub enum ResponseSpecific {
    Null,
    Absent,
    String(String),
    VoteCastMap(VoteCastMap),
    DocumentSenate(Box<DocumentSenate>),
    AmendmentSenate(Box<AmendmentSenate>),
    DSMap(Vec<DocumentSenate>),
    ASMap(Vec<AmendmentSenate>),
}

/// The mathematical model of a `ResponseSpecific`.
pub enum ResponseSpecificView {
    Null,
    Absent,
    String(Seq<char>),
    VoteCastMap(VoteCastMapView),
    DocumentSenate(DocumentSenateView),
    AmendmentSenate(AmendmentSenateView),
    DSMap(Seq<DocumentSenateView>),
    ASMap(Seq<AmendmentSenateView>),
}

impl DeepView for ResponseSpecific {
    type V = ResponseSpecificView;

    open spec fn deep_view(&self) -> ResponseSpecificView {
        match self {
            ResponseSpecific::Null => ResponseSpecificView::Null,
            ResponseSpecific::Absent => ResponseSpecificView::Absent,
            ResponseSpecific::String(s) => ResponseSpecificView::String(s@),
            ResponseSpecific::VoteCastMap(c) => ResponseSpecificView::VoteCastMap(c.deep_view()),
            ResponseSpecific::DocumentSenate(d) => ResponseSpecificView::DocumentSenate(
                d.deep_view(),
            ),
            ResponseSpecific::AmendmentSenate(a) => ResponseSpecificView::AmendmentSenate(
                a.deep_view(),
            ),
            ResponseSpecific::DSMap(list) => ResponseSpecificView::DSMap(list.deep_view()),
            ResponseSpecific::ASMap(list) => ResponseSpecificView::ASMap(list.deep_view()),
        }
    }
}

impl Default for ResponseSpecific {
    fn default() -> (r: Self)
        ensures
            r == ResponseSpecific::Null,
    {
        ResponseSpecific::Null
    }
}

/// Whether an object speaks of a vote and its pairing: it has a member
/// called `content` or one called `pair`.
pub open spec fn names_vote_cast(m: Seq<JsonMemberView>) -> bool {
    member(m, "content"@) is Some || member(m, "pair"@) is Some
}

/// What a JSON value decodes to in the profile of the Senate: `null` to
/// `Null`; a text to `String`; an object to a vote with its pairing where it
/// speaks of one, else to a document where it holds one, else to an
/// amendment; an array to a list of documents where every item is one, else
/// to a list of amendments. Nothing else decodes.
pub open spec fn decode_specific(v: JsonView) -> Option<ResponseSpecificView> {
    match v {
        JsonView::Null => Some(ResponseSpecificView::Null),
        JsonView::Text(s) => Some(ResponseSpecificView::String(s)),
        JsonView::Object(m) => if names_vote_cast(m) && decode_vote_cast_map(v) is Some {
            Some(ResponseSpecificView::VoteCastMap(decode_vote_cast_map(v)->0))
        } else if decode_document_senate(v) is Some {
            Some(ResponseSpecificView::DocumentSenate(decode_document_senate(v)->0))
        } else if decode_amendment_senate(v) is Some {
            Some(ResponseSpecificView::AmendmentSenate(decode_amendment_senate(v)->0))
        } else {
            None
        },
        JsonView::Array(items) => match decode_document_senate_list(items) {
            Some(list) => Some(ResponseSpecificView::DSMap(list)),
            None => match decode_amendment_senate_list(items) {
                Some(list) => Some(ResponseSpecificView::ASMap(list)),
                None => None,
            },
        },
        _ => None,
    }
}

/// A value in the profile of the Senate that may be missing.
pub open spec fn opt_specific(m: Seq<JsonMemberView>, key: Seq<char>) -> Option<
    Option<ResponseSpecificView>,
> {
    match optional(m, key) {
        None => Some(None),
        Some(x) => match decode_specific(x) {
            Some(y) => Some(Some(y)),
            None => None,
        },
    }
}

impl ResponseSpecific {
    /// Decodes a JSON value in the profile of the Senate.
    pub fn from_json(v: &JsonValue) -> (r: Option<ResponseSpecific>)
        ensures
            r.deep_view() == decode_specific(v.deep_view()),
    {
        proof {
            lemma_json_view(*v);
        }
        match v {
            JsonValue::Null => Some(ResponseSpecific::Null),
            JsonValue::Text(s) => Some(ResponseSpecific::String(s.clone())),
            JsonValue::Object(members) => {
                if find_member(members, "content").is_some() || find_member(
                    members,
                    "pair",
                ).is_some() {
                    match VoteCastMap::from_json(v) {
                        Some(c) => {
                            return Some(ResponseSpecific::VoteCastMap(c));
                        },
                        None => {},
                    }
                }
                match DocumentSenate::from_json(v) {
                    Some(d) => {
                        return Some(ResponseSpecific::DocumentSenate(Box::new(d)));
                    },
                    None => {},
                }
                match AmendmentSenate::from_json(v) {
                    Some(a) => Some(ResponseSpecific::AmendmentSenate(Box::new(a))),
                    None => None,
                }
            },
            JsonValue::Array(items) => {
                match DocumentSenate::list_from_json(items) {
                    Some(list) => {
                        return Some(ResponseSpecific::DSMap(list));
                    },
                    None => {},
                }
                match AmendmentSenate::list_from_json(items) {
                    Some(list) => Some(ResponseSpecific::ASMap(list)),
                    None => None,
                }
            },
            _ => None,
        }
    }

    /// A copy of this value.
    pub fn duplicate(&self) -> (r: ResponseSpecific)
        ensures
            r.deep_view() == self.deep_view(),
    {
        match self {
            ResponseSpecific::Null => ResponseSpecific::Null,
            ResponseSpecific::Absent => ResponseSpecific::Absent,
            ResponseSpecific::String(s) => ResponseSpecific::String(s.clone()),
            ResponseSpecific::VoteCastMap(c) => ResponseSpecific::VoteCastMap(c.duplicate()),
            ResponseSpecific::DocumentSenate(d) => ResponseSpecific::DocumentSenate(
                Box::new(d.duplicate()),
            ),
            ResponseSpecific::AmendmentSenate(a) => ResponseSpecific::AmendmentSenate(
                Box::new(a.duplicate()),
            ),
            ResponseSpecific::DSMap(list) => ResponseSpecific::DSMap(
                DocumentSenate::duplicate_list(list),
            ),
            ResponseSpecific::ASMap(list) => ResponseSpecific::ASMap(
                AmendmentSenate::duplicate_list(list),
            ),
        }
    }
}

/// How many senators voted each way.
#[derive(Debug)]
pub struct CountSenate {
    pub yeas: Option<String>,
    pub nays: Option<String>,
    pub present: Option<Response>,
    pub absent: Option<Response>,
}

/// The mathematical model of a `CountSenate`.
pub struct CountSenateView {
    pub yeas: Option<Seq<char>>,
    pub nays: Option<Seq<char>>,
    pub present: Option<ResponseView>,
    pub absent: Option<ResponseView>,
}

impl DeepView for CountSenate {
    type V = CountSenateView;

    open spec fn deep_view(&self) -> CountSenateView {
        CountSenateView {
            yeas: self.yeas.deep_view(),
            nays: self.nays.deep_view(),
            present: self.present.deep_view(),
            absent: self.absent.deep_view(),
        }
    }
}

impl Default for CountSenate {
    fn default() -> (r: Self)
        ensures
            r.deep_view() == CountSenate::default_view(),
    {
        CountSenate {
            yeas: None,
            nays: None,
            present: None,
            absent: None,
        }
    }
}

/// The `CountSenate` that a JSON value holds: an object whose members have the
/// shapes that the fields ask for. Members with other names are passed over.
pub open spec fn decode_count_senate(v: JsonView) -> Option<CountSenateView> {
    match v {
        JsonView::Object(m) => {
            let yeas = opt_text(m, "yeas"@);
            let nays = opt_text(m, "nays"@);
            let present = opt_response(m, "present"@);
            let absent = opt_response(m, "absent"@);
            if yeas is Some && nays is Some && present is Some && absent is Some {
                Some(
                    CountSenateView {
                        yeas: yeas->0,
                        nays: nays->0,
                        present: present->0,
                        absent: absent->0,
                    },
                )
            } else {
                None
            }
        },
        _ => None,
    }
}

/// A `CountSenate` that may be missing.
pub open spec fn opt_count_senate(
    m: Seq<JsonMemberView>,
    key: Seq<char>,
) -> Option<Option<CountSenateView>> {
    match optional(m, key) {
        None => Some(None),
        Some(x) => match decode_count_senate(x) {
            Some(y) => Some(Some(y)),
            None => None,
        },
    }
}

impl CountSenate {
    /// The model of the value that `default` gives.
    pub open spec fn default_view() -> CountSenateView {
        CountSenateView {
            yeas: None,
            nays: None,
            present: None,
            absent: None,
        }
    }

    /// Decodes a JSON value.
    pub fn from_json(v: &JsonValue) -> (r: Option<CountSenate>)
        ensures
            r.deep_view() == decode_count_senate(v.deep_view()),
    {
        proof {
            lemma_json_view(*v);
        }
        match v {
            JsonValue::Object(members) => {
                let yeas = match opt_text_field(members, "yeas") {
                    Some(x) => x,
                    None => {
                        return None;
                    },
                };
                let nays = match opt_text_field(members, "nays") {
                    Some(x) => x,
                    None => {
                        return None;
                    },
                };
                let present = match opt_response_field(members, "present") {
                    Some(x) => x,
                    None => {
                        return None;
                    },
                };
                let absent = match opt_response_field(members, "absent") {
                    Some(x) => x,
                    None => {
                        return None;
                    },
                };
                Some(CountSenate {
                    yeas,
                    nays,
                    present,
                    absent,
                })
            },
            _ => None,
        }
    }

    /// A copy of this value.
    pub fn duplicate(&self) -> (r: CountSenate)
        ensures
            r.deep_view() == self.deep_view(),
    {
        CountSenate {
            yeas: dup_opt_text(&self.yeas),
            nays: dup_opt_text(&self.nays),
            present: match &self.present {
                Some(x) => Some(x.duplicate()),
                None => None,
            },
            absent: match &self.absent {
                Some(x) => Some(x.duplicate()),
                None => None,
            },
        }
    }
}

/// Who broke a tie, and how.
#[derive(Debug)]
pub struct TieBreakerSenate {
    pub by_whom: Response,
    pub tie_breaker_vote: Response,
}

/// The mathematical model of a `TieBreakerSenate`.
pub struct TieBreakerSenateView {
    pub by_whom: ResponseView,
    pub tie_breaker_vote: ResponseView,
}

impl DeepView for TieBreakerSenate {
    type V = TieBreakerSenateView;

    open spec fn deep_view(&self) -> TieBreakerSenateView {
        TieBreakerSenateView {
            by_whom: self.by_whom.deep_view(),
            tie_breaker_vote: self.tie_breaker_vote.deep_view(),
        }
    }
}

impl Default for TieBreakerSenate {
    fn default() -> (r: Self)
        ensures
            r.deep_view() == TieBreakerSenate::default_view(),
    {
        TieBreakerSenate {
            by_whom: Response::Absent,
            tie_breaker_vote: Response::Absent,
        }
    }
}

/// The `TieBreakerSenate` that a JSON value holds: an object whose members have the
/// shapes that the fields ask for. Members with other names are passed over.
pub open spec fn decode_tie_breaker_senate(v: JsonView) -> Option<TieBreakerSenateView> {
    match v {
        JsonView::Object(m) => {
            let by_whom = req_response(m, "by_whom"@);
            let tie_breaker_vote = req_response(m, "tie_breaker_vote"@);
            if by_whom is Some && tie_breaker_vote is Some {
                Some(
                    TieBreakerSenateView {
                        by_whom: by_whom->0,
                        tie_breaker_vote: tie_breaker_vote->0,
                    },
                )
            } else {
                None
            }
        },
        _ => None,
    }
}

/// A `TieBreakerSenate` that may be missing.
pub open spec fn opt_tie_breaker_senate(
    m: Seq<JsonMemberView>,
    key: Seq<char>,
) -> Option<Option<TieBreakerSenateView>> {
    match optional(m, key) {
        None => Some(None),
        Some(x) => match decode_tie_breaker_senate(x) {
            Some(y) => Some(Some(y)),
            None => None,
        },
    }
}

impl TieBreakerSenate {
    /// The model of the value that `default` gives.
    pub open spec fn default_view() -> TieBreakerSenateView {
        TieBreakerSenateView {
            by_whom: ResponseView::Absent,
            tie_breaker_vote: ResponseView::Absent,
        }
    }

    /// Decodes a JSON value.
    pub fn from_json(v: &JsonValue) -> (r: Option<TieBreakerSenate>)
        ensures
            r.deep_view() == decode_tie_breaker_senate(v.deep_view()),
    {
        proof {
            lemma_json_view(*v);
        }
        match v {
            JsonValue::Object(members) => {
                let by_whom = match req_response_field(members, "by_whom") {
                    Some(x) => x,
                    None => {
                        return None;
                    },
                };
                let tie_breaker_vote = match req_response_field(members, "tie_breaker_vote") {
                    Some(x) => x,
                    None => {
                        return None;
                    },
                };
                Some(TieBreakerSenate {
                    by_whom,
                    tie_breaker_vote,
                })
            },
            _ => None,
        }
    }

    /// A copy of this value.
    pub fn duplicate(&self) -> (r: TieBreakerSenate)
        ensures
            r.deep_view() == self.deep_view(),
    {
        TieBreakerSenate {
            by_whom: self.by_whom.duplicate(),
            tie_breaker_vote: self.tie_breaker_vote.duplicate(),
        }
    }
}

/// One senator and the vote the senator cast.
#[derive(Debug)]
pub struct MemberSenate {
    pub member_full: Option<String>,
    pub last_name: Option<String>,
    pub first_name: Option<String>,
    pub party: Option<String>,
    pub state: Option<String>,
    pub vote_cast: Option<ResponseSpecific>,
    pub lis_member_id: Option<String>,
    /// What is recorded of the senator beyond the published fields. No document fills it.
    pub extra: Option<Vec<JsonMember>>,
}

/// The mathematical model of a `MemberSenate`.
pub struct MemberSenateView {
    pub member_full: Option<Seq<char>>,
    pub last_name: Option<Seq<char>>,
    pub first_name: Option<Seq<char>>,
    pub party: Option<Seq<char>>,
    pub state: Option<Seq<char>>,
    pub vote_cast: Option<ResponseSpecificView>,
    pub lis_member_id: Option<Seq<char>>,
    pub extra: Option<Seq<JsonMemberView>>,
}

impl DeepView for MemberSenate {
    type V = MemberSenateView;

    open spec fn deep_view(&self) -> MemberSenateView {
        MemberSenateView {
            member_full: self.member_full.deep_view(),
            last_name: self.last_name.deep_view(),
            first_name: self.first_name.deep_view(),
            party: self.party.deep_view(),
            state: self.state.deep_view(),
            vote_cast: self.vote_cast.deep_view(),
            lis_member_id: self.lis_member_id.deep_view(),
            extra: self.extra.deep_view(),
        }
    }
}

impl Default for MemberSenate {
    fn default() -> (r: Self)
        ensures
            r.deep_view() == MemberSenate::default_view(),
    {
        MemberSenate {
            member_full: None,
            last_name: None,
            first_name: None,
            party: None,
            state: None,
            vote_cast: None,
            lis_member_id: None,
            extra: None,
        }
    }
}

/// The `MemberSenate` that a JSON value holds: an object whose members have the
/// shapes that the fields ask for. Members with other names are passed over.
pub open spec fn decode_member_senate(v: JsonView) -> Option<MemberSenateView> {
    match v {
        JsonView::Object(m) => {
            let member_full = opt_text(m, "member_full"@);
            let last_name = opt_text(m, "last_name"@);
            let first_name = opt_text(m, "first_name"@);
            let party = opt_text(m, "party"@);
            let state = opt_text(m, "state"@);
            let vote_cast = opt_specific(m, "vote_cast"@);
            let lis_member_id = opt_text(m, "lis_member_id"@);
            if member_full is Some && last_name is Some && first_name is Some && party is Some
                && state is Some && vote_cast is Some && lis_member_id is Some {
                Some(
                    MemberSenateView {
                        member_full: member_full->0,
                        last_name: last_name->0,
                        first_name: first_name->0,
                        party: party->0,
                        state: state->0,
                        vote_cast: vote_cast->0,
                        lis_member_id: lis_member_id->0,
                        extra: None,
                    },
                )
            } else {
                None
            }
        },
        _ => None,
    }
}

/// The items of an array, each a `MemberSenate`; `None` if one of them is not.
pub open spec fn decode_member_senate_list(items: Seq<JsonView>) -> Option<Seq<MemberSenateView>>
    decreases items.len(),
{
    if items.len() == 0 {
        Some(Seq::empty())
    } else {
        match (decode_member_senate_list(items.drop_last()), decode_member_senate(items.last())) {
            (Some(head), Some(x)) => Some(head.push(x)),
            _ => None,
        }
    }
}

/// A list of `MemberSenate` that may be missing.
pub open spec fn opt_member_senate_list(
    m: Seq<JsonMemberView>,
    key: Seq<char>,
) -> Option<Option<Seq<MemberSenateView>>> {
    match optional(m, key) {
        None => Some(None),
        Some(JsonView::Array(items)) => match decode_member_senate_list(items) {
            Some(y) => Some(Some(y)),
            None => None,
        },
        Some(_) => None,
    }
}

/// A list whose beginning holds something else than a `MemberSenate` is no list of them.
pub proof fn lemma_decode_member_senate_list_prefix(items: Seq<JsonView>, k: int)
    requires
        0 <= k <= items.len(),
        decode_member_senate_list(items.take(k)) is None,
    ensures
        decode_member_senate_list(items) is None,
    decreases items.len() - k,
{
    if k < items.len() {
        assert(items.take(k + 1).drop_last() == items.take(k));
        lemma_decode_member_senate_list_prefix(items, k + 1);
    } else {
        assert(items.take(k) == items);
    }
}

impl MemberSenate {
    /// The model of the value that `default` gives.
    pub open spec fn default_view() -> MemberSenateView {
        MemberSenateView {
            member_full: None,
            last_name: None,
            first_name: None,
            party: None,
            state: None,
            vote_cast: None,
            lis_member_id: None,
            extra: None,
        }
    }

    /// Decodes a JSON value.
    pub fn from_json(v: &JsonValue) -> (r: Option<MemberSenate>)
        ensures
            r.deep_view() == decode_member_senate(v.deep_view()),
    {
        proof {
            lemma_json_view(*v);
        }
        match v {
            JsonValue::Object(members) => {
                let member_full = match opt_text_field(members, "member_full") {
                    Some(x) => x,
                    None => {
                        return None;
                    },
                };
                let last_name = match opt_text_field(members, "last_name") {
                    Some(x) => x,
                    None => {
                        return None;
                    },
                };
                let first_name = match opt_text_field(members, "first_name") {
                    Some(x) => x,
                    None => {
                        return None;
                    },
                };
                let party = match opt_text_field(members, "party") {
                    Some(x) => x,
                    None => {
                        return None;
                    },
                };
                let state = match opt_text_field(members, "state") {
                    Some(x) => x,
                    None => {
                        return None;
                    },
                };
                let vote_cast = match optional_field(members, "vote_cast") {
                    None => None,
                    Some(x) => match ResponseSpecific::from_json(x) {
                        Some(y) => Some(y),
                        None => {
                            return None;
                        },
                    },
                };
                let lis_member_id = match opt_text_field(members, "lis_member_id") {
                    Some(x) => x,
                    None => {
                        return None;
                    },
                };
                Some(MemberSenate {
                    member_full,
                    last_name,
                    first_name,
                    party,
                    state,
                    vote_cast,
                    lis_member_id,
                    extra: None,
                })
            },
            _ => None,
        }
    }

    /// A copy of this value.
    pub fn duplicate(&self) -> (r: MemberSenate)
        ensures
            r.deep_view() == self.deep_view(),
    {
        MemberSenate {
            member_full: dup_opt_text(&self.member_full),
            last_name: dup_opt_text(&self.last_name),
            first_name: dup_opt_text(&self.first_name),
            party: dup_opt_text(&self.party),
            state: dup_opt_text(&self.state),
            vote_cast: match &self.vote_cast {
                Some(x) => Some(x.duplicate()),
                None => None,
            },
            lis_member_id: dup_opt_text(&self.lis_member_id),
            extra: match &self.extra {
                Some(x) => Some(duplicate_members(x)),
                None => None,
            },
        }
    }

    /// Decodes the items of an array.
    pub fn list_from_json(items: &Vec<JsonValue>) -> (r: Option<Vec<MemberSenate>>)
        ensures
            r.deep_view() == decode_member_senate_list(views_of(items@)),
    {
        let ghost want = views_of(items@);
        let mut out: Vec<MemberSenate> = Vec::new();
        let mut i: usize = 0;
        assert(want.take(0) == Seq::<JsonView>::empty());
        assert(out.deep_view() =~= Seq::<MemberSenateView>::empty());
        while i < items.len()
            invariant
                i <= items@.len(),
                want == views_of(items@),
                decode_member_senate_list(want.take(i as int)) == Some(out.deep_view()),
            decreases items@.len() - i,
        {
            proof {
                assert(want[i as int] == items@[i as int].deep_view());
                assert(want.take(i + 1).drop_last() == want.take(i as int));
                assert(want.take(i + 1).last() == want[i as int]);
            }
            match MemberSenate::from_json(&items[i]) {
                Some(x) => {
                    let ghost before = out.deep_view();
                    let ghost added = x.deep_view();
                    out.push(x);
                    assert(out.deep_view() =~= before.push(added));
                },
                None => {
                    proof {
                        lemma_decode_member_senate_list_prefix(want, i + 1);
                    }
                    return None;
                },
            }
            i += 1;
        }
        assert(want.take(i as int) == want);
        Some(out)
    }

    /// A copy of a list.
    pub fn duplicate_list(items: &Vec<MemberSenate>) -> (r: Vec<MemberSenate>)
        ensures
            r.deep_view() == items.deep_view(),
    {
        let mut out: Vec<MemberSenate> = Vec::new();
        let mut i: usize = 0;
        while i < items.len()
            invariant
                i <= items@.len(),
                out@.len() == i,
                forall|j: int| 0 <= j < i ==>
                    (#[trigger] out@[j]).deep_view() == items@[j].deep_view(),
            decreases items@.len() - i,
        {
            out.push(items[i].duplicate());
            i += 1;
        }
        assert(out.deep_view() =~= items.deep_view());
        out
    }
}

/// The senators of a roll call.
#[derive(Debug)]
pub struct MembersSenate {
    pub member: Option<Vec<MemberSenate>>,
}

/// The mathematical model of a `MembersSenate`.
pub struct MembersSenateView {
    pub member: Option<Seq<MemberSenateView>>,
}

impl DeepView for MembersSenate {
    type V = MembersSenateView;

    open spec fn deep_view(&self) -> MembersSenateView {
        MembersSenateView {
            member: self.member.deep_view(),
        }
    }
}

impl Default for MembersSenate {
    fn default() -> (r: Self)
        ensures
            r.deep_view() == MembersSenate::default_view(),
    {
        MembersSenate {
            member: None,
        }
    }
}

/// The `MembersSenate` that a JSON value holds: an object whose members have the
/// shapes that the fields ask for. Members with other names are passed over.
pub open spec fn decode_members_senate(v: JsonView) -> Option<MembersSenateView> {
    match v {
        JsonView::Object(m) => {
            let member = opt_member_senate_list(m, "member"@);
            if member is Some {
                Some(
                    MembersSenateView {
                        member: member->0,
                    },
                )
            } else {
                None
            }
        },
        _ => None,
    }
}

/// A `MembersSenate` that may be missing.
pub open spec fn opt_members_senate(
    m: Seq<JsonMemberView>,
    key: Seq<char>,
) -> Option<Option<MembersSenateView>> {
    match optional(m, key) {
        None => Some(None),
        Some(x) => match decode_members_senate(x) {
            Some(y) => Some(Some(y)),
            None => None,
        },
    }
}

impl MembersSenate {
    /// The model of the value that `default` gives.
    pub open spec fn default_view() -> MembersSenateView {
        MembersSenateView {
            member: None,
        }
    }

    /// Decodes a JSON value.
    pub fn from_json(v: &JsonValue) -> (r: Option<MembersSenate>)
        ensures
            r.deep_view() == decode_members_senate(v.deep_view()),
    {
        proof {
            lemma_json_view(*v);
        }
        match v {
            JsonValue::Object(members) => {
                let member = match optional_field(members, "member") {
                    None => None,
                    Some(JsonValue::Array(items)) => {
                        proof {
                            lemma_json_view(JsonValue::Array(*items));
                        }
                        match MemberSenate::list_from_json(items) {
                            Some(y) => Some(y),
                            None => {
                                return None;
                            },
                        }
                    },
                    Some(_) => {
                        return None;
                    },
                };
                Some(MembersSenate {
                    member,
                })
            },
            _ => None,
        }
    }

    /// A copy of this value.
    pub fn duplicate(&self) -> (r: MembersSenate)
        ensures
            r.deep_view() == self.deep_view(),
    {
        MembersSenate {
            member: match &self.member {
                Some(x) => Some(MemberSenate::duplicate_list(x)),
                None => None,
            },
        }
    }
}

/// A Senate roll call.
#[derive(Debug)]
pub struct RollCallVoteSenate {
    pub congress: String,
    pub session: String,
    pub congress_year: Option<String>,
    pub vote_number: Option<String>,
    pub vote_date: Response,
    pub modify_date: Option<String>,
    pub vote_question_text: Response,
    pub vote_document_text: Response,
    pub vote_result_text: Response,
    pub question: Response,
    pub vote_title: Option<String>,
    pub majority_requirement: Option<String>,
    pub vote_result: Option<String>,
    pub document: Option<ResponseSpecific>,
    pub amendment: Option<ResponseSpecific>,
    pub count: Option<CountSenate>,
    pub tie_breaker: Option<TieBreakerSenate>,
    pub members: Option<MembersSenate>,
}

/// The mathematical model of a `RollCallVoteSenate`.
pub struct RollCallVoteSenateView {
    pub congress: Seq<char>,
    pub session: Seq<char>,
    pub congress_year: Option<Seq<char>>,
    pub vote_number: Option<Seq<char>>,
    pub vote_date: ResponseView,
    pub modify_date: Option<Seq<char>>,
    pub vote_question_text: ResponseView,
    pub vote_document_text: ResponseView,
    pub vote_result_text: ResponseView,
    pub question: ResponseView,
    pub vote_title: Option<Seq<char>>,
    pub majority_requirement: Option<Seq<char>>,
    pub vote_result: Option<Seq<char>>,
    pub document: Option<ResponseSpecificView>,
    pub amendment: Option<ResponseSpecificView>,
    pub count: Option<CountSenateView>,
    pub tie_breaker: Option<TieBreakerSenateView>,
    pub members: Option<MembersSenateView>,
}

impl DeepView for RollCallVoteSenate {
    type V = RollCallVoteSenateView;

    open spec fn deep_view(&self) -> RollCallVoteSenateView {
        RollCallVoteSenateView {
            congress: self.congress.deep_view(),
            session: self.session.deep_view(),
            congress_year: self.congress_year.deep_view(),
            vote_number: self.vote_number.deep_view(),
            vote_date: self.vote_date.deep_view(),
            modify_date: self.modify_date.deep_view(),
            vote_question_text: self.vote_question_text.deep_view(),
            vote_document_text: self.vote_document_text.deep_view(),
            vote_result_text: self.vote_result_text.deep_view(),
            question: self.question.deep_view(),
            vote_title: self.vote_title.deep_view(),
            majority_requirement: self.majority_requirement.deep_view(),
            vote_result: self.vote_result.deep_view(),
            document: self.document.deep_view(),
            amendment: self.amendment.deep_view(),
            count: self.count.deep_view(),
            tie_breaker: self.tie_breaker.deep_view(),
            members: self.members.deep_view(),
        }
    }
}

impl Default for RollCallVoteSenate {
    fn default() -> (r: Self)
        ensures
            r.deep_view() == RollCallVoteSenate::default_view(),
    {
        RollCallVoteSenate {
            congress: String::new(),
            session: String::new(),
            congress_year: None,
            vote_number: None,
            vote_date: Response::Absent,
            modify_date: None,
            vote_question_text: Response::Absent,
            vote_document_text: Response::Absent,
            vote_result_text: Response::Absent,
            question: Response::Absent,
            vote_title: None,
            majority_requirement: None,
            vote_result: None,
            document: None,
            amendment: None,
            count: None,
            tie_breaker: None,
            members: None,
        }
    }
}

/// The `RollCallVoteSenate` that a JSON value holds: an object whose members have the
/// shapes that the fields ask for. Members with other names are passed over.
pub open spec fn decode_roll_call_vote_senate(v: JsonView) -> Option<RollCallVoteSenateView> {
    match v {
        JsonView::Object(m) => {
            let congress = req_text(m, "congress"@);
            let session = req_text(m, "session"@);
            let congress_year = opt_text(m, "congress_year"@);
            let vote_number = opt_text(m, "vote_number"@);
            let vote_date = req_response(m, "vote_date"@);
            let modify_date = opt_text(m, "modify_date"@);
            let vote_question_text = req_response(m, "vote_question_text"@);
            let vote_document_text = req_response(m, "vote_document_text"@);
            let vote_result_text = req_response(m, "vote_result_text"@);
            let question = req_response(m, "question"@);
            let vote_title = opt_text(m, "vote_title"@);
            let majority_requirement = opt_text(m, "majority_requirement"@);
            let vote_result = opt_text(m, "vote_result"@);
            let document = opt_specific(m, "document"@);
            let amendment = opt_specific(m, "amendment"@);
            let count = opt_count_senate(m, "count"@);
            let tie_breaker = opt_tie_breaker_senate(m, "tie_breaker"@);
            let members = opt_members_senate(m, "members"@);
            if congress is Some && session is Some && congress_year is Some && vote_number is Some
                && vote_date is Some && modify_date is Some && vote_question_text is Some
                && vote_document_text is Some && vote_result_text is Some && question is Some
                && vote_title is Some && majority_requirement is Some && vote_result is Some
                && document is Some && amendment is Some && count is Some && tie_breaker is Some
                && members is Some {
                Some(
                    RollCallVoteSenateView {
                        congress: congress->0,
                        session: session->0,
                        congress_year: congress_year->0,
                        vote_number: vote_number->0,
                        vote_date: vote_date->0,
                        modify_date: modify_date->0,
                        vote_question_text: vote_question_text->0,
                        vote_document_text: vote_document_text->0,
                        vote_result_text: vote_result_text->0,
                        question: question->0,
                        vote_title: vote_title->0,
                        majority_requirement: majority_requirement->0,
                        vote_result: vote_result->0,
                        document: document->0,
                        amendment: amendment->0,
                        count: count->0,
                        tie_breaker: tie_breaker->0,
                        members: members->0,
                    },
                )
            } else {
                None
            }
        },
        _ => None,
    }
}

/// A `RollCallVoteSenate` that has to be there.
pub open spec fn req_roll_call_vote_senate(
    m: Seq<JsonMemberView>,
    key: Seq<char>,
) -> Option<RollCallVoteSenateView> {
    match member(m, key) {
        Some(x) => decode_roll_call_vote_senate(x),
        None => None,
    }
}

impl RollCallVoteSenate {
    /// The model of the value that `default` gives.
    pub open spec fn default_view() -> RollCallVoteSenateView {
        RollCallVoteSenateView {
            congress: Seq::empty(),
            session: Seq::empty(),
            congress_year: None,
            vote_number: None,
            vote_date: ResponseView::Absent,
            modify_date: None,
            vote_question_text: ResponseView::Absent,
            vote_document_text: ResponseView::Absent,
            vote_result_text: ResponseView::Absent,
            question: ResponseView::Absent,
            vote_title: None,
            majority_requirement: None,
            vote_result: None,
            document: None,
            amendment: None,
            count: None,
            tie_breaker: None,
            members: None,
        }
    }

    /// Decodes a JSON value.
    pub fn from_json(v: &JsonValue) -> (r: Option<RollCallVoteSenate>)
        ensures
            r.deep_view() == decode_roll_call_vote_senate(v.deep_view()),
    {
        proof {
            lemma_json_view(*v);
        }
        match v {
            JsonValue::Object(members) => {
                let congress = match req_text_field(members, "congress") {
                    Some(x) => x,
                    None => {
                        return None;
                    },
                };
                let session = match req_text_field(members, "session") {
                    Some(x) => x,
                    None => {
                        return None;
                    },
                };
                let congress_year = match opt_text_field(members, "congress_year") {
                    Some(x) => x,
                    None => {
                        return None;
                    },
                };
                let vote_number = match opt_text_field(members, "vote_number") {
                    Some(x) => x,
                    None => {
                        return None;
                    },
                };
                let vote_date = match req_response_field(members, "vote_date") {
                    Some(x) => x,
                    None => {
                        return None;
                    },
                };
                let modify_date = match opt_text_field(members, "modify_date") {
                    Some(x) => x,
                    None => {
                        return None;
                    },
                };
                let vote_question_text = match req_response_field(members, "vote_question_text") {
                    Some(x) => x,
                    None => {
                        return None;
                    },
                };
                let vote_document_text = match req_response_field(members, "vote_document_text") {
                    Some(x) => x,
                    None => {
                        return None;
                    },
                };
                let vote_result_text = match req_response_field(members, "vote_result_text") {
                    Some(x) => x,
                    None => {
                        return None;
                    },
                };
                let question = match req_response_field(members, "question") {
                    Some(x) => x,
                    None => {
                        return None;
                    },
                };
                let vote_title = match opt_text_field(members, "vote_title") {
                    Some(x) => x,
                    None => {
                        return None;
                    },
                };
                let majority_requirement = match opt_text_field(members, "majority_requirement") {
                    Some(x) => x,
                    None => {
                        return None;
                    },
                };
                let vote_result = match opt_text_field(members, "vote_result") {
                    Some(x) => x,
                    None => {
                        return None;
                    },
                };
                let document = match optional_field(members, "document") {
                    None => None,
                    Some(x) => match ResponseSpecific::from_json(x) {
                        Some(y) => Some(y),
                        None => {
                            return None;
                        },
                    },
                };
                let amendment = match optional_field(members, "amendment") {
                    None => None,
                    Some(x) => match ResponseSpecific::from_json(x) {
                        Some(y) => Some(y),
                        None => {
                            return None;
                        },
                    },
                };
                let count = match optional_field(members, "count") {
                    None => None,
                    Some(x) => match CountSenate::from_json(x) {
                        Some(y) => Some(y),
                        None => {
                            return None;
                        },
                    },
                };
                let tie_breaker = match optional_field(members, "tie_breaker") {
                    None => None,
                    Some(x) => match TieBreakerSenate::from_json(x) {
                        Some(y) => Some(y),
                        None => {
                            return None;
                        },
                    },
                };
                let members = match optional_field(members, "members") {
                    None => None,
                    Some(x) => match MembersSenate::from_json(x) {
                        Some(y) => Some(y),
                        None => {
                            return None;
                        },
                    },
                };
                Some(RollCallVoteSenate {
                    congress,
                    session,
                    congress_year,
                    vote_number,
                    vote_date,
                    modify_date,
                    vote_question_text,
                    vote_document_text,
                    vote_result_text,
                    question,
                    vote_title,
                    majority_requirement,
                    vote_result,
                    document,
                    amendment,
                    count,
                    tie_breaker,
                    members,
                })
            },
            _ => None,
        }
    }

    /// A copy of this value.
    pub fn duplicate(&self) -> (r: RollCallVoteSenate)
        ensures
            r.deep_view() == self.deep_view(),
    {
        RollCallVoteSenate {
            congress: self.congress.clone(),
            session: self.session.clone(),
            congress_year: dup_opt_text(&self.congress_year),
            vote_number: dup_opt_text(&self.vote_number),
            vote_date: self.vote_date.duplicate(),
            modify_date: dup_opt_text(&self.modify_date),
            vote_question_text: self.vote_question_text.duplicate(),
            vote_document_text: self.vote_document_text.duplicate(),
            vote_result_text: self.vote_result_text.duplicate(),
            question: self.question.duplicate(),
            vote_title: dup_opt_text(&self.vote_title),
            majority_requirement: dup_opt_text(&self.majority_requirement),
            vote_result: dup_opt_text(&self.vote_result),
            document: match &self.document {
                Some(x) => Some(x.duplicate()),
                None => None,
            },
            amendment: match &self.amendment {
                Some(x) => Some(x.duplicate()),
                None => None,
            },
            count: match &self.count {
                Some(x) => Some(x.duplicate()),
                None => None,
            },
            tie_breaker: match &self.tie_breaker {
                Some(x) => Some(x.duplicate()),
                None => None,
            },
            members: match &self.members {
                Some(x) => Some(x.duplicate()),
                None => None,
            },
        }
    }
}

/// A file that holds one Senate roll call.
#[derive(Debug)]
pub struct SenateFile {
    pub roll_call_vote: RollCallVoteSenate,
}

/// The mathematical model of a `SenateFile`.
pub struct SenateFileView {
    pub roll_call_vote: RollCallVoteSenateView,
}

impl DeepView for SenateFile {
    type V = SenateFileView;

    open spec fn deep_view(&self) -> SenateFileView {
        SenateFileView {
            roll_call_vote: self.roll_call_vote.deep_view(),
        }
    }
}

impl Default for SenateFile {
    fn default() -> (r: Self)
        ensures
            r.deep_view() == SenateFile::default_view(),
    {
        SenateFile {
            roll_call_vote: RollCallVoteSenate::default(),
        }
    }
}

/// The `SenateFile` that a JSON value holds: an object whose members have the
/// shapes that the fields ask for. Members with other names are passed over.
pub open spec fn decode_senate_file(v: JsonView) -> Option<SenateFileView> {
    match v {
        JsonView::Object(m) => {
            let roll_call_vote = req_roll_call_vote_senate(m, "roll_call_vote"@);
            if roll_call_vote is Some {
                Some(
                    SenateFileView {
                        roll_call_vote: roll_call_vote->0,
                    },
                )
            } else {
                None
            }
        },
        _ => None,
    }
}

impl SenateFile {
    /// The model of the value that `default` gives.
    pub open spec fn default_view() -> SenateFileView {
        SenateFileView {
            roll_call_vote: RollCallVoteSenate::default_view(),
        }
    }

    /// Decodes a JSON value.
    pub fn from_json(v: &JsonValue) -> (r: Option<SenateFile>)
        ensures
            r.deep_view() == decode_senate_file(v.deep_view()),
    {
        proof {
            lemma_json_view(*v);
        }
        match v {
            JsonValue::Object(members) => {
                let roll_call_vote = match find_member(members, "roll_call_vote") {
                    None => {
                        return None;
                    },
                    Some(x) => match RollCallVoteSenate::from_json(x) {
                        Some(y) => y,
                        None => {
                            return None;
                        },
                    },
                };
                Some(SenateFile {
                    roll_call_vote,
                })
            },
            _ => None,
        }
    }

    /// A copy of this value.
    pub fn duplicate(&self) -> (r: SenateFile)
        ensures
            r.deep_view() == self.deep_view(),
    {
        SenateFile {
            roll_call_vote: self.roll_call_vote.duplicate(),
        }
    }
}
} // verus!
