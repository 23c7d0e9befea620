//! Values as the two chambers publish them, and the decoder that settles
//! what a field holds when its JSON type varies from file to file.
use crate::json::{lemma_json_view, member_views, views_of, JsonMemberView, JsonValue, JsonView};
use crate::text::{decimal, parse_bounded, parse_unsigned, push_decimal};
use std::collections::HashMap;
use vstd::prelude::*;
use vstd::string::*;

verus! {

/// What a loosely typed field holds. The decoder tries the alternatives in
/// the order in which they stand here, so a document always decodes the same
/// way. `Absent` stands for a field that the document does not have; no JSON
/// value decodes to it.
#[derive(Debug)]
pub enum Response {
    Null,
    Absent,
    U32(u32),
    String(String),
    Mapping(Vec<ResponseEntry>),
    List(Vec<Response>),
}

/// One entry of a mapping: a name and what is filed under it.
#[derive(Debug)]
pub struct ResponseEntry {
    pub key: String,
    pub value: Response,
}

/// The mathematical model of a `Response`.
pub enum ResponseView {
    Null,
    Absent,
    U32(int),
    String(Seq<char>),
    Mapping(Seq<ResponseEntryView>),
    List(Seq<ResponseView>),
}

/// The mathematical model of a `ResponseEntry`.
pub struct ResponseEntryView {
    pub key: Seq<char>,
    pub value: ResponseView,
}

impl DeepView for Response {
    type V = ResponseView;

    open spec fn deep_view(&self) -> ResponseView
        decreases self,
    {
        match self {
            Response::Null => ResponseView::Null,
            Response::Absent => ResponseView::Absent,
            Response::U32(n) => ResponseView::U32(*n as int),
            Response::String(s) => ResponseView::String(s@),
            Response::Mapping(entries) => ResponseView::Mapping(
                Seq::new(
                    entries@.len(),
                    |i: int|
                        if 0 <= i < entries@.len() {
                            ResponseEntryView {
                                key: entries@[i].key@,
                                value: entries@[i].value.deep_view(),
                            }
                        } else {
                            ResponseEntryView { key: Seq::empty(), value: ResponseView::Null }
                        },
                ),
            ),
            Response::List(items) => ResponseView::List(
                Seq::new(
                    items@.len(),
                    |i: int|
                        if 0 <= i < items@.len() {
                            items@[i].deep_view()
                        } else {
                            ResponseView::Null
                        },
                ),
            ),
        }
    }
}

/// The model of a run of values.
pub open spec fn response_views(items: Seq<Response>) -> Seq<ResponseView> {
    Seq::new(items.len(), |i: int| items[i].deep_view())
}

/// The model of a run of entries.
pub open spec fn entry_views(entries: Seq<ResponseEntry>) -> Seq<ResponseEntryView> {
    Seq::new(
        entries.len(),
        |i: int| ResponseEntryView { key: entries[i].key@, value: entries[i].value.deep_view() },
    )
}

impl Default for Response {
    fn default() -> (r: Self)
        ensures
            r == Response::Absent,
    {
        Response::Absent
    }
}

/// The models of lists and mappings are those of their parts, in order.
pub proof fn lemma_response_view(r: Response)
    ensures
        r matches Response::List(items) ==> r.deep_view() == ResponseView::List(
            response_views(items@),
        ),
        r matches Response::Mapping(entries) ==> r.deep_view() == ResponseView::Mapping(
            entry_views(entries@),
        ),
{
    match r {
        Response::List(items) => {
            assert(r.deep_view()->List_0 =~= response_views(items@));
        },
        Response::Mapping(entries) => {
            assert(r.deep_view()->Mapping_0 =~= entry_views(entries@));
        },
        _ => {},
    }
}

/// The number that a JSON number literal writes, where it is a whole number
/// from zero to `max` written in digits alone.
pub open spec fn unsigned_literal(literal: Seq<char>, max: nat) -> Option<nat> {
    if literal.len() > 0 && literal[0] != '+' {
        parse_unsigned(literal, max)
    } else {
        None
    }
}

/// What a JSON value decodes to in the generic profile: `null` to `Null`, a
/// whole number that fits 32 bits to `U32`, a text to `String`, an object all
/// of whose members decode to `Mapping`, an array all of whose items decode
/// to `List`. Nothing else decodes.
pub open spec fn decode_response(v: JsonView) -> Option<ResponseView>
    decreases v,
{
    match v {
        JsonView::Null => Some(ResponseView::Null),
        JsonView::Bool(_) => None,
        JsonView::Number(literal) => match unsigned_literal(literal, u32::MAX as nat) {
            Some(n) => Some(ResponseView::U32(n as int)),
            None => None,
        },
        JsonView::Text(s) => Some(ResponseView::String(s)),
        JsonView::Object(members) => match decode_entries(members) {
            Some(entries) => Some(ResponseView::Mapping(entries)),
            None => None,
        },
        JsonView::Array(items) => match decode_list(items) {
            Some(list) => Some(ResponseView::List(list)),
            None => None,
        },
    }
}

/// The items of an array, each decoded in the generic profile; `None` if one
/// of them does not decode.
pub open spec fn decode_list(items: Seq<JsonView>) -> Option<Seq<ResponseView>>
    decreases items,
{
    if items.len() == 0 {
        Some(Seq::empty())
    } else {
        match (decode_list(items.drop_last()), decode_response(items.last())) {
            (Some(head), Some(x)) => Some(head.push(x)),
            _ => None,
        }
    }
}

/// The members of an object, each decoded in the generic profile under its
/// name; `None` if one of them does not decode.
pub open spec fn decode_entries(members: Seq<JsonMemberView>) -> Option<Seq<ResponseEntryView>>
    decreases members,
{
    if members.len() == 0 {
        Some(Seq::empty())
    } else {
        match (decode_entries(members.drop_last()), decode_response(members.last().value)) {
            (Some(head), Some(x)) => Some(
                head.push(ResponseEntryView { key: members.last().name, value: x }),
            ),
            _ => None,
        }
    }
}

/// A list whose beginning does not decode does not decode.
pub proof fn lemma_decode_list_prefix(items: Seq<JsonView>, k: int)
    requires
        0 <= k <= items.len(),
        decode_list(items.take(k)) is None,
    ensures
        decode_list(items) is None,
    decreases items.len() - k,
{
    if k < items.len() {
        assert(items.take(k + 1).drop_last() == items.take(k));
        lemma_decode_list_prefix(items, k + 1);
    } else {
        assert(items.take(k) == items);
    }
}

/// An object whose first members do not decode does not decode.
pub proof fn lemma_decode_entries_prefix(members: Seq<JsonMemberView>, k: int)
    requires
        0 <= k <= members.len(),
        decode_entries(members.take(k)) is None,
    ensures
        decode_entries(members) is None,
    decreases members.len() - k,
{
    if k < members.len() {
        assert(members.take(k + 1).drop_last() == members.take(k));
        lemma_decode_entries_prefix(members, k + 1);
    } else {
        assert(members.take(k) == members);
    }
}

impl Response {
    /// Decodes a JSON value in the generic profile.
    pub fn from_json(v: &JsonValue) -> (r: Option<Response>)
        ensures
            match r {
                Some(x) => decode_response(v.deep_view()) == Some(x.deep_view()),
                None => decode_response(v.deep_view()) is None,
            },
        decreases v,
    {
        proof {
            lemma_json_view(*v);
        }
        match v {
            JsonValue::Null => Some(Response::Null),
            JsonValue::Bool(_) => None,
            JsonValue::Number(literal) => {
                let s = literal.as_str();
                if s.unicode_len() == 0 || s.get_char(0) == '+' {
                    return None;
                }
                match parse_bounded(s, 0xffff_ffff) {
                    Some(n) => Some(Response::U32(n as u32)),
                    None => None,
                }
            },
            JsonValue::Text(s) => Some(Response::String(s.clone())),
            JsonValue::Array(items) => {
                let ghost want = views_of(items@);
                let mut out: Vec<Response> = Vec::new();
                let mut i: usize = 0;
                assert(want.take(0) == Seq::<JsonView>::empty());
                while i < items.len()
                    invariant
                        i <= items@.len(),
                        want == views_of(items@),
                        *v == JsonValue::Array(*items),
                        v.deep_view() == JsonView::Array(want),
                        decode_list(want.take(i as int)) == Some(response_views(out@)),
                    decreases items@.len() - i,
                {
                    proof {
                        assert(want[i as int] == items@[i as int].deep_view());
                        assert(decreases_to!(v => items@[i as int]));
                        assert(want.take(i + 1).drop_last() == want.take(i as int));
                        assert(want.take(i + 1).last() == want[i as int]);
                    }
                    match Response::from_json(&items[i]) {
                        Some(x) => {
                            let ghost before = response_views(out@);
                            out.push(x);
                            assert(response_views(out@) =~= before.push(x.deep_view()));
                        },
                        None => {
                            proof {
                                lemma_decode_list_prefix(want, i + 1);
                            }
                            return None;
                        },
                    }
                    i += 1;
                }
                assert(want.take(i as int) == want);
                let r = Response::List(out);
                proof {
                    lemma_response_view(r);
                }
                Some(r)
            },
            JsonValue::Object(members) => {
                let ghost want = member_views(members@);
                let mut out: Vec<ResponseEntry> = Vec::new();
                let mut i: usize = 0;
                assert(want.take(0) == Seq::<JsonMemberView>::empty());
                while i < members.len()
                    invariant
                        i <= members@.len(),
                        want == member_views(members@),
                        *v == JsonValue::Object(*members),
                        v.deep_view() == JsonView::Object(want),
                        decode_entries(want.take(i as int)) == Some(entry_views(out@)),
                    decreases members@.len() - i,
                {
                    proof {
                        assert(want[i as int].value == members@[i as int].value.deep_view());
                        assert(want[i as int].name == members@[i as int].name@);
                        assert(decreases_to!(v => members@[i as int].value));
                        assert(want.take(i + 1).drop_last() == want.take(i as int));
                        assert(want.take(i + 1).last() == want[i as int]);
                    }
                    match Response::from_json(&members[i].value) {
                        Some(x) => {
                            let ghost before = entry_views(out@);
                            let entry = ResponseEntry { key: members[i].name.clone(), value: x };
                            let ghost added = ResponseEntryView {
                                key: entry.key@,
                                value: entry.value.deep_view(),
                            };
                            out.push(entry);
                            assert(entry_views(out@) =~= before.push(added));
                        },
                        None => {
                            proof {
                                lemma_decode_entries_prefix(want, i + 1);
                            }
                            return None;
                        },
                    }
                    i += 1;
                }
                assert(want.take(i as int) == want);
                let r = Response::Mapping(out);
                proof {
                    lemma_response_view(r);
                }
                Some(r)
            },
        }
    }
}

impl Response {
    /// A copy of this value.
    pub fn duplicate(&self) -> (r: Response)
        ensures
            r.deep_view() == self.deep_view(),
    {
        Response::copy_of(self)
    }

    fn copy_of(this: &Response) -> (r: Response)
        ensures
            r.deep_view() == this.deep_view(),
        decreases this,
    {
        proof {
            lemma_response_view(*this);
        }
        match this {
            Response::Null => Response::Null,
            Response::Absent => Response::Absent,
            Response::U32(n) => Response::U32(*n),
            Response::String(s) => Response::String(s.clone()),
            Response::List(items) => {
                let mut out: Vec<Response> = Vec::new();
                let mut i: usize = 0;
                while i < items.len()
                    invariant
                        i <= items@.len(),
                        *this == Response::List(*items),
                        this.deep_view() == ResponseView::List(response_views(items@)),
                        response_views(out@) == response_views(items@).take(i as int),
                    decreases items@.len() - i,
                {
                    let ghost before = response_views(out@);
                    let x = Response::copy_of(&items[i]);
                    out.push(x);
                    assert(response_views(out@) =~= before.push(x.deep_view()));
                    assert(response_views(items@).take(i + 1) =~= response_views(items@).take(
                        i as int,
                    ).push(items@[i as int].deep_view()));
                    i += 1;
                }
                assert(response_views(items@).take(i as int) == response_views(items@));
                let r = Response::List(out);
                proof {
                    lemma_response_view(r);
                }
                r
            },
            Response::Mapping(entries) => {
                let mut out: Vec<ResponseEntry> = Vec::new();
                let mut i: usize = 0;
                while i < entries.len()
                    invariant
                        i <= entries@.len(),
                        *this == Response::Mapping(*entries),
                        this.deep_view() == ResponseView::Mapping(entry_views(entries@)),
                        entry_views(out@) == entry_views(entries@).take(i as int),
                    decreases entries@.len() - i,
                {
                    let ghost before = entry_views(out@);
                    let x = ResponseEntry {
                        key: entries[i].key.clone(),
                        value: Response::copy_of(&entries[i].value),
                    };
                    let ghost added = ResponseEntryView { key: x.key@, value: x.value.deep_view() };
                    out.push(x);
                    assert(entry_views(out@) =~= before.push(added));
                    assert(entry_views(entries@).take(i + 1) =~= entry_views(entries@).take(
                        i as int,
                    ).push(
                        ResponseEntryView {
                            key: entries@[i as int].key@,
                            value: entries@[i as int].value.deep_view(),
                        },
                    ));
                    i += 1;
                }
                assert(entry_views(entries@).take(i as int) == entry_views(entries@));
                let r = Response::Mapping(out);
                proof {
                    lemma_response_view(r);
                }
                r
            },
        }
    }
}

/// One legislator's vote in one roll call.
#[derive(Debug)]
pub struct UnifiedVote {
    pub congress_number: u16,
    pub chamber: String,
    pub session_number: u8,
    pub rollcall_number: u32,
    pub vote_date: String,
    pub vote_question: String,
    pub vote_result: String,
    pub legislator_id: String,
    pub legislator_name: String,
    pub party: String,
    pub state: String,
    pub vote_cast: String,
}

/// The mathematical model of a `UnifiedVote`.
pub struct UnifiedVoteView {
    pub congress_number: int,
    pub chamber: Seq<char>,
    pub session_number: int,
    pub rollcall_number: int,
    pub vote_date: Seq<char>,
    pub vote_question: Seq<char>,
    pub vote_result: Seq<char>,
    pub legislator_id: Seq<char>,
    pub legislator_name: Seq<char>,
    pub party: Seq<char>,
    pub state: Seq<char>,
    pub vote_cast: Seq<char>,
}

impl DeepView for UnifiedVote {
    type V = UnifiedVoteView;

    open spec fn deep_view(&self) -> UnifiedVoteView {
        UnifiedVoteView {
            congress_number: self.congress_number as int,
            chamber: self.chamber@,
            session_number: self.session_number as int,
            rollcall_number: self.rollcall_number as int,
            vote_date: self.vote_date@,
            vote_question: self.vote_question@,
            vote_result: self.vote_result@,
            legislator_id: self.legislator_id@,
            legislator_name: self.legislator_name@,
            party: self.party@,
            state: self.state@,
            vote_cast: self.vote_cast@,
        }
    }
}

impl UnifiedVote {
    /// A copy of this vote.
    pub fn duplicate(&self) -> (r: UnifiedVote)
        ensures
            r.deep_view() == self.deep_view(),
    {
        UnifiedVote {
            congress_number: self.congress_number,
            chamber: self.chamber.clone(),
            session_number: self.session_number,
            rollcall_number: self.rollcall_number,
            vote_date: self.vote_date.clone(),
            vote_question: self.vote_question.clone(),
            vote_result: self.vote_result.clone(),
            legislator_id: self.legislator_id.clone(),
            legislator_name: self.legislator_name.clone(),
            party: self.party.clone(),
            state: self.state.clone(),
            vote_cast: self.vote_cast.clone(),
        }
    }
}

impl Default for UnifiedVote {
    fn default() -> (r: Self)
        ensures
            r.deep_view() == (UnifiedVoteView {
                congress_number: 0,
                chamber: Seq::empty(),
                session_number: 0,
                rollcall_number: 0,
                vote_date: Seq::empty(),
                vote_question: Seq::empty(),
                vote_result: Seq::empty(),
                legislator_id: Seq::empty(),
                legislator_name: Seq::empty(),
                party: Seq::empty(),
                state: Seq::empty(),
                vote_cast: Seq::empty(),
            }),
    {
        UnifiedVote {
            congress_number: 0,
            chamber: String::new(),
            session_number: 0,
            rollcall_number: 0,
            vote_date: String::new(),
            vote_question: String::new(),
            vote_result: String::new(),
            legislator_id: String::new(),
            legislator_name: String::new(),
            party: String::new(),
            state: String::new(),
            vote_cast: String::new(),
        }
    }
}

/// One roll call with the votes recorded for it so far, in the order in
/// which they were recorded.
#[derive(Debug)]
pub struct RollCallData {
    pub rollcall_number: u32,
    pub vote_date: String,
    pub vote_question: String,
    pub vote_result: String,
    pub vote_casts: Vec<UnifiedVote>,
}

/// The mathematical model of a `RollCallData`.
pub struct RollCallDataView {
    pub rollcall_number: int,
    pub vote_date: Seq<char>,
    pub vote_question: Seq<char>,
    pub vote_result: Seq<char>,
    pub vote_casts: Seq<UnifiedVoteView>,
}

impl DeepView for RollCallData {
    type V = RollCallDataView;

    open spec fn deep_view(&self) -> RollCallDataView {
        RollCallDataView {
            rollcall_number: self.rollcall_number as int,
            vote_date: self.vote_date@,
            vote_question: self.vote_question@,
            vote_result: self.vote_result@,
            vote_casts: self.vote_casts.deep_view(),
        }
    }
}

impl Default for RollCallData {
    fn default() -> (r: Self)
        ensures
            r.deep_view() == (RollCallDataView {
                rollcall_number: 0,
                vote_date: Seq::empty(),
                vote_question: Seq::empty(),
                vote_result: Seq::empty(),
                vote_casts: Seq::empty(),
            }),
    {
        let r = RollCallData {
            rollcall_number: 0,
            vote_date: String::new(),
            vote_question: String::new(),
            vote_result: String::new(),
            vote_casts: Vec::new(),
        };
        assert(r.vote_casts.deep_view() =~= Seq::empty());
        r
    }
}

/// The roll calls of one session, in the order in which they were first seen.
#[derive(Debug)]
pub struct SessionData {
    pub rollcalls: Vec<RollCallData>,
}

/// The mathematical model of a `SessionData`.
pub struct SessionDataView {
    pub rollcalls: Seq<RollCallDataView>,
}

impl DeepView for SessionData {
    type V = SessionDataView;

    open spec fn deep_view(&self) -> SessionDataView {
        SessionDataView { rollcalls: self.rollcalls.deep_view() }
    }
}

impl Default for SessionData {
    fn default() -> (r: Self)
        ensures
            r.deep_view() == (SessionDataView { rollcalls: Seq::empty() }),
    {
        let r = SessionData { rollcalls: Vec::new() };
        assert(r.rollcalls.deep_view() =~= Seq::empty());
        r
    }
}

/// The sessions of one congress, by number.
#[derive(Debug)]
pub struct CongressData {
    pub sessions: HashMap<u8, SessionData>,
}

/// The mathematical model of a `CongressData`.
pub struct CongressDataView {
    pub sessions: Map<int, SessionDataView>,
}

/// The model of the sessions that a map holds.
pub open spec fn session_views(sessions: Map<u8, SessionData>) -> Map<int, SessionDataView> {
    Map::new(
        |k: int| 0 <= k <= u8::MAX && sessions.contains_key(k as u8),
        |k: int| sessions[k as u8].deep_view(),
    )
}

impl DeepView for CongressData {
    type V = CongressDataView;

    open spec fn deep_view(&self) -> CongressDataView {
        CongressDataView { sessions: session_views(self.sessions@) }
    }
}

impl Default for CongressData {
    fn default() -> (r: Self)
        ensures
            r.deep_view() == (CongressDataView { sessions: Map::empty() }),
    {
        let r = CongressData { sessions: HashMap::new() };
        assert(session_views(r.sessions@) =~= Map::empty());
        r
    }
}

/// The congresses of one chamber, by number.
#[derive(Debug)]
pub struct ChamberData {
    pub congresses: HashMap<u16, CongressData>,
}

/// The mathematical model of a `ChamberData`.
pub struct ChamberDataView {
    pub congresses: Map<int, CongressDataView>,
}

/// The model of the congresses that a map holds.
pub open spec fn congress_views(congresses: Map<u16, CongressData>) -> Map<int, CongressDataView> {
    Map::new(
        |k: int| 0 <= k <= u16::MAX && congresses.contains_key(k as u16),
        |k: int| congresses[k as u16].deep_view(),
    )
}

impl DeepView for ChamberData {
    type V = ChamberDataView;

    open spec fn deep_view(&self) -> ChamberDataView {
        ChamberDataView { congresses: congress_views(self.congresses@) }
    }
}

impl Default for ChamberData {
    fn default() -> (r: Self)
        ensures
            r.deep_view() == (ChamberDataView { congresses: Map::empty() }),
    {
        let r = ChamberData { congresses: HashMap::new() };
        assert(congress_views(r.congresses@) =~= Map::empty());
        r
    }
}

/// One chamber of the tree, under the name by which it is filed.
#[derive(Debug)]
pub struct ChamberEntry {
    pub name: String,
    pub data: ChamberData,
}

/// Every roll call seen in one run, filed by chamber, congress and session.
/// A chamber is found under its name in lower case; where two entries bear
/// one name, the first is the chamber and the second is never reached.
#[derive(Debug)]
pub struct CombinedData {
    pub chambers: Vec<ChamberEntry>,
}

/// The mathematical model of a `CombinedData`.
pub struct CombinedDataView {
    pub chambers: Map<Seq<char>, ChamberDataView>,
}

/// The model of the chambers that a list holds: each name with the first
/// entry that bears it.
pub open spec fn chamber_views(chambers: Seq<ChamberEntry>) -> Map<Seq<char>, ChamberDataView>
    decreases chambers.len(),
{
    if chambers.len() == 0 {
        Map::empty()
    } else {
        chamber_views(chambers.drop_first()).insert(chambers[0].name@, chambers[0].data.deep_view())
    }
}

impl DeepView for CombinedData {
    type V = CombinedDataView;

    open spec fn deep_view(&self) -> CombinedDataView {
        CombinedDataView { chambers: chamber_views(self.chambers@) }
    }
}

impl Default for CombinedData {
    fn default() -> (r: Self)
        ensures
            r.deep_view() == (CombinedDataView { chambers: Map::empty() }),
            r.chambers@.len() == 0,
    {
        CombinedData { chambers: Vec::new() }
    }
}

/// A value of the generic profile as a text for reading: a text as it is,
/// a number in decimal notation, `null` and `none` for the two empty
/// values, a list in square brackets and a mapping in braces, each item
/// followed by a comma and a blank.
pub open spec fn displayed(r: ResponseView) -> Seq<char>
    decreases r,
{
    match r {
        ResponseView::Null => "null"@,
        ResponseView::Absent => "none"@,
        ResponseView::U32(n) => decimal(n as nat),
        ResponseView::String(s) => s,
        ResponseView::Mapping(entries) => "{"@ + displayed_entries(entries) + "}"@,
        ResponseView::List(items) => "["@ + displayed_items(items) + "]"@,
    }
}

/// The items of a list as a text for reading.
pub open spec fn displayed_items(items: Seq<ResponseView>) -> Seq<char>
    decreases items,
{
    if items.len() == 0 {
        Seq::empty()
    } else {
        displayed_items(items.drop_last()) + displayed(items.last()) + ", "@
    }
}

/// The entries of a mapping as a text for reading.
pub open spec fn displayed_entries(entries: Seq<ResponseEntryView>) -> Seq<char>
    decreases entries,
{
    if entries.len() == 0 {
        Seq::empty()
    } else {
        displayed_entries(entries.drop_last()) + entries.last().key + ": "@ + displayed(
            entries.last().value,
        ) + ", "@
    }
}

impl Response {
    /// This value as a text for reading.
    pub fn to_text(&self) -> (out: String)
        ensures
            out@ == displayed(self.deep_view()),
    {
        let mut out = String::new();
        Response::push_text(self, &mut out);
        assert(Seq::<char>::empty() + displayed(self.deep_view()) =~= displayed(self.deep_view()));
        out
    }

    /// Appends this value as a text for reading.
    pub fn push_text(this: &Response, out: &mut String)
        ensures
            final(out)@ == old(out)@ + displayed(this.deep_view()),
        decreases this,
    {
        proof {
            lemma_response_view(*this);
        }
        let ghost start = out@;
        match this {
            Response::Null => {
                out.append("null");
            },
            Response::Absent => {
                out.append("none");
            },
            Response::U32(n) => {
                push_decimal(out, *n as u64);
            },
            Response::String(s) => {
                out.append(s.as_str());
            },
            Response::List(items) => {
                out.append("[");
                let ghost all = response_views(items@);
                let mut i: usize = 0;
                assert(all.take(0) =~= Seq::<ResponseView>::empty());
                assert(out@ =~= start + "["@ + displayed_items(all.take(0)));
                while i < items.len()
                    invariant
                        i <= items@.len(),
                        *this == Response::List(*items),
                        this.deep_view() == ResponseView::List(response_views(items@)),
                        all == response_views(items@),
                        out@ == start + "["@ + displayed_items(all.take(i as int)),
                    decreases items@.len() - i,
                {
                    let ghost before = out@;
                    proof {
                        assert(all.take(i + 1).drop_last() == all.take(i as int));
                        assert(all.take(i + 1).last() == items@[i as int].deep_view());
                    }
                    Response::push_text(&items[i], out);
                    out.append(", ");
                    assert(out@ =~= start + "["@ + displayed_items(all.take(i + 1)));
                    i += 1;
                }
                assert(all.take(i as int) == all);
                out.append("]");
                assert(out@ =~= start + displayed(this.deep_view()));
            },
            Response::Mapping(entries) => {
                out.append("{");
                let ghost all = entry_views(entries@);
                let mut i: usize = 0;
                assert(all.take(0) =~= Seq::<ResponseEntryView>::empty());
                assert(out@ =~= start + "{"@ + displayed_entries(all.take(0)));
                while i < entries.len()
                    invariant
                        i <= entries@.len(),
                        *this == Response::Mapping(*entries),
                        this.deep_view() == ResponseView::Mapping(entry_views(entries@)),
                        all == entry_views(entries@),
                        out@ == start + "{"@ + displayed_entries(all.take(i as int)),
                    decreases entries@.len() - i,
                {
                    proof {
                        assert(all.take(i + 1).drop_last() == all.take(i as int));
                        assert(all.take(i + 1).last().key == entries@[i as int].key@);
                        assert(all.take(i + 1).last().value
                            == entries@[i as int].value.deep_view());
                    }
                    out.append(entries[i].key.as_str());
                    out.append(": ");
                    Response::push_text(&entries[i].value, out);
                    out.append(", ");
                    assert(out@ =~= start + "{"@ + displayed_entries(all.take(i + 1)));
                    i += 1;
                }
                assert(all.take(i as int) == all);
                out.append("}");
                assert(out@ =~= start + displayed(this.deep_view()));
            },
        }
    }
}

} // verus!
