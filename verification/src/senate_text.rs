//! Values of the Senate as texts for reading.
use crate::fields::text_or;
use crate::responses::{displayed, Response, ResponseView};
use crate::senate::{
    AmendmentSenate, AmendmentSenateView, DocumentSenate, DocumentSenateView, ResponseSpecific,
    ResponseSpecificView, VoteCastMap, VoteCastMapView,
};
use vstd::prelude::*;
use vstd::string::*;

verus! {

/// A field for reading: its name, a colon, its value, a comma and a blank.
pub open spec fn labelled(label: Seq<char>, value: Seq<char>) -> Seq<char> {
    label + ": "@ + value + ", "@
}

/// A loosely typed value that may be missing, `null` where it is.
pub open spec fn displayed_or_null(o: Option<ResponseView>) -> Seq<char> {
    match o {
        Some(r) => displayed(r),
        None => "null"@,
    }
}

/// A document for reading: its fields in braces.
pub open spec fn displayed_document(d: DocumentSenateView) -> Seq<char> {
    "{"@ + labelled("document_congress"@, displayed(d.document_congress)) + labelled(
        "document_type"@,
        displayed(d.document_type),
    ) + labelled("document_number"@, displayed(d.document_number)) + labelled(
        "document_name"@,
        displayed(d.document_name),
    ) + labelled("document_title"@, displayed(d.document_title)) + labelled(
        "document_short_title"@,
        text_or(d.document_short_title, "null"@),
    ) + "}"@
}

/// An amendment for reading: its fields in braces.
pub open spec fn displayed_amendment(a: AmendmentSenateView) -> Seq<char> {
    "{"@ + labelled("amendment_number"@, text_or(a.amendment_number, "null"@)) + labelled(
        "amendment_to_amendment_number"@,
        displayed_or_null(a.amendment_to_amendment_number),
    ) + labelled(
        "amendment_to_amendment_to_amendment_number"@,
        displayed_or_null(a.amendment_to_amendment_to_amendment_number),
    ) + labelled(
        "amendment_to_document_number"@,
        displayed_or_null(a.amendment_to_document_number),
    ) + labelled(
        "amendment_to_document_short_title"@,
        displayed_or_null(a.amendment_to_document_short_title),
    ) + labelled("amendment_purpose"@, text_or(a.amendment_purpose, "null"@)) + "}"@
}

/// A field that is shown only where it is there.
pub open spec fn labelled_if_there(label: Seq<char>, o: Option<Seq<char>>) -> Seq<char> {
    match o {
        Some(value) => labelled(label, value),
        None => Seq::empty(),
    }
}

/// A vote with its pairing for reading.
pub open spec fn displayed_cast(c: VoteCastMapView) -> Seq<char> {
    "{"@ + labelled_if_there("content"@, c.name) + labelled_if_there("pair"@, c.paired_with) + "}"@
}

/// Documents for reading, each followed by a comma and a blank.
pub open spec fn displayed_documents(list: Seq<DocumentSenateView>) -> Seq<char>
    decreases list.len(),
{
    if list.len() == 0 {
        Seq::empty()
    } else {
        displayed_documents(list.drop_last()) + displayed_document(list.last()) + ", "@
    }
}

/// Amendments for reading, each followed by a comma and a blank.
pub open spec fn displayed_amendments(list: Seq<AmendmentSenateView>) -> Seq<char>
    decreases list.len(),
{
    if list.len() == 0 {
        Seq::empty()
    } else {
        displayed_amendments(list.drop_last()) + displayed_amendment(list.last()) + ", "@
    }
}

/// A value of the profile of the Senate for reading: a list of documents
/// in square brackets, a list of amendments in braces.
pub open spec fn displayed_specific(v: ResponseSpecificView) -> Seq<char> {
    match v {
        ResponseSpecificView::Null => "null"@,
        ResponseSpecificView::Absent => "none"@,
        ResponseSpecificView::String(s) => s,
        ResponseSpecificView::VoteCastMap(c) => displayed_cast(c),
        ResponseSpecificView::DocumentSenate(d) => displayed_document(d),
        ResponseSpecificView::AmendmentSenate(a) => displayed_amendment(a),
        ResponseSpecificView::DSMap(list) => "["@ + displayed_documents(list) + "]"@,
        ResponseSpecificView::ASMap(list) => "{"@ + displayed_amendments(list) + "}"@,
    }
}

/// Appends a field whose value is a text.
fn push_labelled(out: &mut String, label: &str, value: &str)
    ensures
        final(out)@ == old(out)@ + labelled(label@, value@),
{
    let ghost start = out@;
    out.append(label);
    out.append(": ");
    out.append(value);
    out.append(", ");
    assert(out@ =~= start + labelled(label@, value@));
}

/// Appends a field whose value is loosely typed.
fn push_labelled_response(out: &mut String, label: &str, value: &Response)
    ensures
        final(out)@ == old(out)@ + labelled(label@, displayed(value.deep_view())),
{
    let text = value.to_text();
    push_labelled(out, label, text.as_str());
}

/// Appends a field whose value is loosely typed and may be missing.
fn push_labelled_option(out: &mut String, label: &str, value: &Option<Response>)
    ensures
        final(out)@ == old(out)@ + labelled(label@, displayed_or_null(value.deep_view())),
{
    match value {
        Some(r) => push_labelled_response(out, label, r),
        None => push_labelled(out, label, "null"),
    }
}

/// Appends a field whose value is a text that may be missing.
fn push_labelled_text(out: &mut String, label: &str, value: &Option<String>)
    ensures
        final(out)@ == old(out)@ + labelled(label@, text_or(value.deep_view(), "null"@)),
{
    match value {
        Some(s) => push_labelled(out, label, s.as_str()),
        None => push_labelled(out, label, "null"),
    }
}

/// Appends a document for reading.
pub fn push_document(out: &mut String, d: &DocumentSenate)
    ensures
        final(out)@ == old(out)@ + displayed_document(d.deep_view()),
{
    let ghost start = out@;
    out.append("{");
    push_labelled_response(out, "document_congress", &d.document_congress);
    push_labelled_response(out, "document_type", &d.document_type);
    push_labelled_response(out, "document_number", &d.document_number);
    push_labelled_response(out, "document_name", &d.document_name);
    push_labelled_response(out, "document_title", &d.document_title);
    push_labelled_text(out, "document_short_title", &d.document_short_title);
    out.append("}");
    assert(out@ =~= start + displayed_document(d.deep_view()));
}

/// Appends an amendment for reading.
pub fn push_amendment(out: &mut String, a: &AmendmentSenate)
    ensures
        final(out)@ == old(out)@ + displayed_amendment(a.deep_view()),
{
    let ghost start = out@;
    out.append("{");
    push_labelled_text(out, "amendment_number", &a.amendment_number);
    push_labelled_option(out, "amendment_to_amendment_number", &a.amendment_to_amendment_number);
    push_labelled_option(
        out,
        "amendment_to_amendment_to_amendment_number",
        &a.amendment_to_amendment_to_amendment_number,
    );
    push_labelled_option(out, "amendment_to_document_number", &a.amendment_to_document_number);
    push_labelled_option(
        out,
        "amendment_to_document_short_title",
        &a.amendment_to_document_short_title,
    );
    push_labelled_text(out, "amendment_purpose", &a.amendment_purpose);
    out.append("}");
    assert(out@ =~= start + displayed_amendment(a.deep_view()));
}

impl DocumentSenate {
    /// This document as a text for reading.
    pub fn to_text(&self) -> (out: String)
        ensures
            out@ == displayed_document(self.deep_view()),
    {
        let mut out = String::new();
        push_document(&mut out, self);
        assert(Seq::<char>::empty() + displayed_document(self.deep_view())
            =~= displayed_document(self.deep_view()));
        out
    }
}

impl AmendmentSenate {
    /// This amendment as a text for reading.
    pub fn to_text(&self) -> (out: String)
        ensures
            out@ == displayed_amendment(self.deep_view()),
    {
        let mut out = String::new();
        push_amendment(&mut out, self);
        assert(Seq::<char>::empty() + displayed_amendment(self.deep_view())
            =~= displayed_amendment(self.deep_view()));
        out
    }
}

impl VoteCastMap {
    /// This vote with its pairing as a text for reading.
    pub fn to_text(&self) -> (out: String)
        ensures
            out@ == displayed_cast(self.deep_view()),
    {
        let mut out = String::from_str("{");
        match &self.name {
            Some(name) => push_labelled(&mut out, "content", name.as_str()),
            None => {},
        }
        match &self.paired_with {
            Some(pair) => push_labelled(&mut out, "pair", pair.as_str()),
            None => {},
        }
        out.append("}");
        assert(out@ =~= displayed_cast(self.deep_view()));
        out
    }
}

impl ResponseSpecific {
    /// This value as a text for reading.
    pub fn to_text(&self) -> (out: String)
        ensures
            out@ == displayed_specific(self.deep_view()),
    {
        match self {
            ResponseSpecific::Null => String::from_str("null"),
            ResponseSpecific::Absent => String::from_str("none"),
            ResponseSpecific::String(s) => s.clone(),
            ResponseSpecific::VoteCastMap(c) => c.to_text(),
            ResponseSpecific::DocumentSenate(d) => d.to_text(),
            ResponseSpecific::AmendmentSenate(a) => a.to_text(),
            ResponseSpecific::DSMap(list) => {
                let mut out = String::from_str("[");
                let ghost all = list.deep_view();
                let mut i: usize = 0;
                assert(all.take(0) =~= Seq::<DocumentSenateView>::empty());
                assert(out@ =~= "["@ + displayed_documents(all.take(0)));
                while i < list.len()
                    invariant
                        i <= list@.len(),
                        all == list.deep_view(),
                        out@ == "["@ + displayed_documents(all.take(i as int)),
                    decreases list@.len() - i,
                {
                    proof {
                        assert(all.take(i + 1).drop_last() == all.take(i as int));
                        assert(all.take(i + 1).last() == list@[i as int].deep_view());
                    }
                    push_document(&mut out, &list[i]);
                    out.append(", ");
                    assert(out@ =~= "["@ + displayed_documents(all.take(i + 1)));
                    i += 1;
                }
                assert(all.take(i as int) == all);
                out.append("]");
                out
            },
            ResponseSpecific::ASMap(list) => {
                let mut out = String::from_str("{");
                let ghost all = list.deep_view();
                let mut i: usize = 0;
                assert(all.take(0) =~= Seq::<AmendmentSenateView>::empty());
                assert(out@ =~= "{"@ + displayed_amendments(all.take(0)));
                while i < list.len()
                    invariant
                        i <= list@.len(),
                        all == list.deep_view(),
                        out@ == "{"@ + displayed_amendments(all.take(i as int)),
                    decreases list@.len() - i,
                {
                    proof {
                        assert(all.take(i + 1).drop_last() == all.take(i as int));
                        assert(all.take(i + 1).last() == list@[i as int].deep_view());
                    }
                    push_amendment(&mut out, &list[i]);
                    out.append(", ");
                    assert(out@ =~= "{"@ + displayed_amendments(all.take(i + 1)));
                    i += 1;
                }
                assert(all.take(i as int) == all);
                out.append("}");
                out
            },
        }
    }
}

} // verus!
