//! The aggregation tree as one JSON document, written and read back.
use crate::json::{
    json_pretty, lemma_json_view, member, member_views, views_of, write_pretty, JsonMember,
    JsonMemberView, JsonValue, JsonView,
};
use crate::responses::{
    ChamberData, ChamberDataView, ChamberEntry, CombinedData, CongressData, CongressDataView,
    RollCallData, RollCallDataView, SessionData, SessionDataView, UnifiedVote, UnifiedVoteView,
};
use crate::fields::{req_text, req_text_field};
use crate::json::{find_member, json_document, parse};
use crate::json_master::{find_chamber, lemma_chamber_push, lemma_chamber_update};
use crate::responses::{congress_views, session_views};
use crate::text::{parse_bounded};
use crate::responses::{chamber_views, unsigned_literal, CombinedDataView};
use crate::text::{decimal, decimal_text, lemma_decimal_parses};
use std::collections::HashMap;
use vstd::prelude::*;
use vstd::string::*;

verus! {

/// One member of an object.
pub open spec fn field(name: Seq<char>, value: JsonView) -> JsonMemberView {
    JsonMemberView { name, value }
}

/// A whole number from zero on as a JSON number.
pub open spec fn number(n: int) -> JsonView {
    JsonView::Number(decimal(n as nat))
}

/// A member that holds a text.
fn text_member(name: &str, value: &String) -> (m: JsonMember)
    ensures
        m.deep_view() == field(name@, JsonView::Text(value@)),
{
    JsonMember { name: String::from_str(name), value: JsonValue::Text(value.clone()) }
}

/// A member that holds a number.
fn number_member(name: &str, value: u64) -> (m: JsonMember)
    ensures
        m.deep_view() == field(name@, number(value as int)),
{
    JsonMember { name: String::from_str(name), value: JsonValue::Number(decimal_text(value)) }
}

/// An object with the given members.
fn object_of(members: Vec<JsonMember>) -> (v: JsonValue)
    ensures
        v.deep_view() == JsonView::Object(members.deep_view()),
{
    let v = JsonValue::Object(members);
    proof {
        lemma_json_view(v);
        assert(member_views(members@) =~= members.deep_view());
    }
    v
}

/// An array with the given items.
fn array_of(items: Vec<JsonValue>) -> (v: JsonValue)
    ensures
        v.deep_view() == JsonView::Array(items.deep_view()),
{
    let v = JsonValue::Array(items);
    proof {
        lemma_json_view(v);
        assert(views_of(items@) =~= items.deep_view());
    }
    v
}

/// A vote as a JSON object, one member for each field.
pub open spec fn encode_vote(v: UnifiedVoteView) -> JsonView {
    JsonView::Object(
        seq![
            field("congress_number"@, number(v.congress_number)),
            field("chamber"@, JsonView::Text(v.chamber)),
            field("session_number"@, number(v.session_number)),
            field("rollcall_number"@, number(v.rollcall_number)),
            field("vote_date"@, JsonView::Text(v.vote_date)),
            field("vote_question"@, JsonView::Text(v.vote_question)),
            field("vote_result"@, JsonView::Text(v.vote_result)),
            field("legislator_id"@, JsonView::Text(v.legislator_id)),
            field("legislator_name"@, JsonView::Text(v.legislator_name)),
            field("party"@, JsonView::Text(v.party)),
            field("state"@, JsonView::Text(v.state)),
            field("vote_cast"@, JsonView::Text(v.vote_cast)),
        ],
    )
}

/// A run of votes as JSON objects.
pub open spec fn encode_votes(votes: Seq<UnifiedVoteView>) -> Seq<JsonView> {
    Seq::new(votes.len(), |i: int| encode_vote(votes[i]))
}

/// A roll call as a JSON object.
pub open spec fn encode_rollcall(r: RollCallDataView) -> JsonView {
    JsonView::Object(
        seq![
            field("rollcall_number"@, number(r.rollcall_number)),
            field("vote_date"@, JsonView::Text(r.vote_date)),
            field("vote_question"@, JsonView::Text(r.vote_question)),
            field("vote_result"@, JsonView::Text(r.vote_result)),
            field("vote_casts"@, JsonView::Array(encode_votes(r.vote_casts))),
        ],
    )
}

/// A run of roll calls as JSON objects.
pub open spec fn encode_rollcalls(rollcalls: Seq<RollCallDataView>) -> Seq<JsonView> {
    Seq::new(rollcalls.len(), |i: int| encode_rollcall(rollcalls[i]))
}

/// A session as a JSON object.
pub open spec fn encode_session(s: SessionDataView) -> JsonView {
    JsonView::Object(seq![field("rollcalls"@, JsonView::Array(encode_rollcalls(s.rollcalls)))])
}

/// The sessions with numbers below `upto` as members of an object, in the
/// order of their numbers, each under its number in decimal notation.
pub open spec fn encode_sessions(sessions: Map<int, SessionDataView>, upto: int) -> Seq<
    JsonMemberView,
>
    decreases upto,
{
    if upto <= 0 {
        Seq::empty()
    } else {
        let head = encode_sessions(sessions, upto - 1);
        if sessions.contains_key(upto - 1) {
            head.push(field(decimal((upto - 1) as nat), encode_session(sessions[upto - 1])))
        } else {
            head
        }
    }
}

/// A congress as a JSON object.
pub open spec fn encode_congress(c: CongressDataView) -> JsonView {
    JsonView::Object(
        seq![field("sessions"@, JsonView::Object(encode_sessions(c.sessions, u8::MAX + 1)))],
    )
}

/// The congresses with numbers below `upto` as members of an object, in
/// the order of their numbers, each under its number in decimal notation.
pub open spec fn encode_congresses(congresses: Map<int, CongressDataView>, upto: int) -> Seq<
    JsonMemberView,
>
    decreases upto,
{
    if upto <= 0 {
        Seq::empty()
    } else {
        let head = encode_congresses(congresses, upto - 1);
        if congresses.contains_key(upto - 1) {
            head.push(field(decimal((upto - 1) as nat), encode_congress(congresses[upto - 1])))
        } else {
            head
        }
    }
}

/// A chamber as a JSON object.
pub open spec fn encode_chamber(c: ChamberDataView) -> JsonView {
    JsonView::Object(
        seq![field("congresses"@, JsonView::Object(encode_congresses(c.congresses, u16::MAX + 1)))],
    )
}

/// Whether one of the chambers bears the name.
pub open spec fn names_chamber(chambers: Seq<ChamberEntry>, name: Seq<char>) -> bool {
    exists|j: int| 0 <= j < chambers.len() && (#[trigger] chambers[j]).name@ == name
}

/// The chambers as members of an object, in the order of the list, each
/// under its name; an entry whose name stands earlier in the list is left
/// out, since it is not part of the tree.
pub open spec fn encode_chambers(chambers: Seq<ChamberEntry>) -> Seq<JsonMemberView>
    decreases chambers.len(),
{
    if chambers.len() == 0 {
        Seq::empty()
    } else {
        let head = encode_chambers(chambers.drop_last());
        if names_chamber(chambers.drop_last(), chambers.last().name@) {
            head
        } else {
            head.push(
                field(chambers.last().name@, encode_chamber(chambers.last().data.deep_view())),
            )
        }
    }
}

/// The tree as one JSON document.
pub open spec fn encode_tree(chambers: Seq<ChamberEntry>) -> JsonView {
    JsonView::Object(seq![field("chambers"@, JsonView::Object(encode_chambers(chambers)))])
}

/// A vote as a JSON object.
pub fn vote_to_json(vote: &UnifiedVote) -> (v: JsonValue)
    ensures
        v.deep_view() == encode_vote(vote.deep_view()),
{
    let mut members: Vec<JsonMember> = Vec::new();
    members.push(number_member("congress_number", vote.congress_number as u64));
    members.push(text_member("chamber", &vote.chamber));
    members.push(number_member("session_number", vote.session_number as u64));
    members.push(number_member("rollcall_number", vote.rollcall_number as u64));
    members.push(text_member("vote_date", &vote.vote_date));
    members.push(text_member("vote_question", &vote.vote_question));
    members.push(text_member("vote_result", &vote.vote_result));
    members.push(text_member("legislator_id", &vote.legislator_id));
    members.push(text_member("legislator_name", &vote.legislator_name));
    members.push(text_member("party", &vote.party));
    members.push(text_member("state", &vote.state));
    members.push(text_member("vote_cast", &vote.vote_cast));
    assert(members.deep_view() =~= encode_vote(vote.deep_view())->Object_0);
    object_of(members)
}

/// A roll call as a JSON object.
pub fn rollcall_to_json(rollcall: &RollCallData) -> (v: JsonValue)
    ensures
        v.deep_view() == encode_rollcall(rollcall.deep_view()),
{
    let mut casts: Vec<JsonValue> = Vec::new();
    let ghost all = rollcall.vote_casts.deep_view();
    let mut i: usize = 0;
    while i < rollcall.vote_casts.len()
        invariant
            i <= rollcall.vote_casts@.len(),
            all == rollcall.vote_casts.deep_view(),
            casts.deep_view() == encode_votes(all.take(i as int)),
        decreases rollcall.vote_casts@.len() - i,
    {
        let ghost before = casts.deep_view();
        let item = vote_to_json(&rollcall.vote_casts[i]);
        let ghost added = item.deep_view();
        casts.push(item);
        proof {
            assert(all[i as int] == rollcall.vote_casts@[i as int].deep_view());
            assert(casts.deep_view() =~= before.push(added));
            assert(encode_votes(all.take(i + 1)) =~= encode_votes(all.take(i as int)).push(
                encode_vote(all[i as int]),
            ));
        }
        i += 1;
    }
    assert(all.take(i as int) == all);
    let mut members: Vec<JsonMember> = Vec::new();
    members.push(number_member("rollcall_number", rollcall.rollcall_number as u64));
    members.push(text_member("vote_date", &rollcall.vote_date));
    members.push(text_member("vote_question", &rollcall.vote_question));
    members.push(text_member("vote_result", &rollcall.vote_result));
    members.push(JsonMember { name: String::from_str("vote_casts"), value: array_of(casts) });
    assert(members.deep_view() =~= encode_rollcall(rollcall.deep_view())->Object_0);
    object_of(members)
}

/// A session as a JSON object.
pub fn session_to_json(session: &SessionData) -> (v: JsonValue)
    ensures
        v.deep_view() == encode_session(session.deep_view()),
{
    let mut items: Vec<JsonValue> = Vec::new();
    let ghost all = session.rollcalls.deep_view();
    let mut i: usize = 0;
    while i < session.rollcalls.len()
        invariant
            i <= session.rollcalls@.len(),
            all == session.rollcalls.deep_view(),
            items.deep_view() == encode_rollcalls(all.take(i as int)),
        decreases session.rollcalls@.len() - i,
    {
        let ghost before = items.deep_view();
        let item = rollcall_to_json(&session.rollcalls[i]);
        let ghost added = item.deep_view();
        items.push(item);
        proof {
            assert(all[i as int] == session.rollcalls@[i as int].deep_view());
            assert(items.deep_view() =~= before.push(added));
            assert(encode_rollcalls(all.take(i + 1)) =~= encode_rollcalls(
                all.take(i as int),
            ).push(encode_rollcall(all[i as int])));
        }
        i += 1;
    }
    assert(all.take(i as int) == all);
    let mut members: Vec<JsonMember> = Vec::new();
    members.push(JsonMember { name: String::from_str("rollcalls"), value: array_of(items) });
    assert(members.deep_view() =~= encode_session(session.deep_view())->Object_0);
    object_of(members)
}

/// A congress as a JSON object.
pub fn congress_to_json(congress: &CongressData) -> (v: JsonValue)
    ensures
        v.deep_view() == encode_congress(congress.deep_view()),
{
    broadcast use vstd::std_specs::hash::group_hash_axioms;

    let ghost sessions = congress.deep_view().sessions;
    let mut inner: Vec<JsonMember> = Vec::new();
    let mut k: u16 = 0;
    while k <= 0xff
        invariant
            k <= 0x100,
            sessions == congress.deep_view().sessions,
            inner.deep_view() == encode_sessions(sessions, k as int),
        decreases 0x100 - k,
    {
        let ghost before = inner.deep_view();
        match congress.sessions.get(&(k as u8)) {
            Some(session) => {
                let item = JsonMember {
                    name: decimal_text(k as u64),
                    value: session_to_json(session),
                };
                let ghost added = item.deep_view();
                inner.push(item);
                assert(inner.deep_view() =~= before.push(added));
            },
            None => {},
        }
        k += 1;
    }
    let mut members: Vec<JsonMember> = Vec::new();
    members.push(JsonMember { name: String::from_str("sessions"), value: object_of(inner) });
    assert(members.deep_view() =~= encode_congress(congress.deep_view())->Object_0);
    object_of(members)
}

/// A chamber as a JSON object.
pub fn chamber_to_json(chamber: &ChamberData) -> (v: JsonValue)
    ensures
        v.deep_view() == encode_chamber(chamber.deep_view()),
{
    broadcast use vstd::std_specs::hash::group_hash_axioms;

    let ghost congresses = chamber.deep_view().congresses;
    let mut inner: Vec<JsonMember> = Vec::new();
    let mut k: u32 = 0;
    while k <= 0xffff
        invariant
            k <= 0x1_0000,
            congresses == chamber.deep_view().congresses,
            inner.deep_view() == encode_congresses(congresses, k as int),
        decreases 0x1_0000 - k,
    {
        let ghost before = inner.deep_view();
        match chamber.congresses.get(&(k as u16)) {
            Some(congress) => {
                let item = JsonMember {
                    name: decimal_text(k as u64),
                    value: congress_to_json(congress),
                };
                let ghost added = item.deep_view();
                inner.push(item);
                assert(inner.deep_view() =~= before.push(added));
            },
            None => {},
        }
        k += 1;
    }
    let mut members: Vec<JsonMember> = Vec::new();
    members.push(JsonMember { name: String::from_str("congresses"), value: object_of(inner) });
    assert(members.deep_view() =~= encode_chamber(chamber.deep_view())->Object_0);
    object_of(members)
}

/// The tree as one JSON document.
pub fn combined_data_to_json(combined_data: &CombinedData) -> (v: JsonValue)
    ensures
        v.deep_view() == encode_tree(combined_data.chambers@),
{
    let chambers = &combined_data.chambers;
    let mut inner: Vec<JsonMember> = Vec::new();
    let mut i: usize = 0;
    assert(chambers@.take(0) =~= Seq::<ChamberEntry>::empty());
    while i < chambers.len()
        invariant
            i <= chambers@.len(),
            inner.deep_view() == encode_chambers(chambers@.take(i as int)),
        decreases chambers@.len() - i,
    {
        let ghost before = inner.deep_view();
        let ghost seen = chambers@.take(i as int);
        proof {
            assert(chambers@.take(i + 1).drop_last() == seen);
            assert(chambers@.take(i + 1).last() == chambers@[i as int]);
        }
        let mut known = false;
        let mut j: usize = 0;
        while j < i
            invariant
                j <= i <= chambers@.len(),
                i < chambers@.len(),
                seen == chambers@.take(i as int),
                known == exists|t: int|
                    0 <= t < j && (#[trigger] seen[t]).name@ == chambers@[i as int].name@,
            decreases i - j,
        {
            assert(seen[j as int] == chambers@[j as int]);
            if crate::text::text_eq(chambers[j].name.as_str(), chambers[i].name.as_str()) {
                known = true;
            }
            j += 1;
        }
        assert(known == names_chamber(seen, chambers@[i as int].name@));
        if !known {
            let item = JsonMember {
                name: chambers[i].name.clone(),
                value: chamber_to_json(&chambers[i].data),
            };
            let ghost added = item.deep_view();
            inner.push(item);
            assert(inner.deep_view() =~= before.push(added));
        }
        i += 1;
    }
    assert(chambers@.take(i as int) == chambers@);
    let mut members: Vec<JsonMember> = Vec::new();
    members.push(JsonMember { name: String::from_str("chambers"), value: object_of(inner) });
    assert(members.deep_view() =~= encode_tree(chambers@)->Object_0);
    object_of(members)
}

/// The bytes of the tree as one JSON document, indented for reading.
pub fn serialize_combined_data(combined_data: &CombinedData) -> (bytes: Vec<u8>)
    ensures
        bytes@ == json_pretty(encode_tree(combined_data.chambers@)),
{
    let document = combined_data_to_json(combined_data);
    write_pretty(&document)
}

/// A whole number from zero to `max` that has to be there.
pub open spec fn req_number(m: Seq<JsonMemberView>, key: Seq<char>, max: nat) -> Option<int> {
    match member(m, key) {
        Some(JsonView::Number(literal)) => match unsigned_literal(literal, max) {
            Some(n) => Some(n as int),
            None => None,
        },
        _ => None,
    }
}

/// An array that has to be there.
pub open spec fn req_array(m: Seq<JsonMemberView>, key: Seq<char>) -> Option<Seq<JsonView>> {
    match member(m, key) {
        Some(JsonView::Array(items)) => Some(items),
        _ => None,
    }
}

/// An object that has to be there.
pub open spec fn req_object(m: Seq<JsonMemberView>, key: Seq<char>) -> Option<Seq<JsonMemberView>> {
    match member(m, key) {
        Some(JsonView::Object(members)) => Some(members),
        _ => None,
    }
}

/// The vote that a JSON value holds: an object with a member of the right
/// kind for each field.
pub open spec fn decode_vote(v: JsonView) -> Option<UnifiedVoteView> {
    match v {
        JsonView::Object(m) => {
            let congress_number = req_number(m, "congress_number"@, u16::MAX as nat);
            let chamber = req_text(m, "chamber"@);
            let session_number = req_number(m, "session_number"@, u8::MAX as nat);
            let rollcall_number = req_number(m, "rollcall_number"@, u32::MAX as nat);
            let vote_date = req_text(m, "vote_date"@);
            let vote_question = req_text(m, "vote_question"@);
            let vote_result = req_text(m, "vote_result"@);
            let legislator_id = req_text(m, "legislator_id"@);
            let legislator_name = req_text(m, "legislator_name"@);
            let party = req_text(m, "party"@);
            let state = req_text(m, "state"@);
            let vote_cast = req_text(m, "vote_cast"@);
            if congress_number is Some && chamber is Some && session_number is Some
                && rollcall_number is Some && vote_date is Some && vote_question is Some
                && vote_result is Some && legislator_id is Some && legislator_name is Some
                && party is Some && state is Some && vote_cast is Some {
                Some(
                    UnifiedVoteView {
                        congress_number: congress_number->0,
                        chamber: chamber->0,
                        session_number: session_number->0,
                        rollcall_number: rollcall_number->0,
                        vote_date: vote_date->0,
                        vote_question: vote_question->0,
                        vote_result: vote_result->0,
                        legislator_id: legislator_id->0,
                        legislator_name: legislator_name->0,
                        party: party->0,
                        state: state->0,
                        vote_cast: vote_cast->0,
                    },
                )
            } else {
                None
            }
        },
        _ => None,
    }
}

/// The votes that the items of an array hold; `None` if one holds none.
pub open spec fn decode_votes(items: Seq<JsonView>) -> Option<Seq<UnifiedVoteView>>
    decreases items.len(),
{
    if items.len() == 0 {
        Some(Seq::empty())
    } else {
        match (decode_votes(items.drop_last()), decode_vote(items.last())) {
            (Some(head), Some(x)) => Some(head.push(x)),
            _ => None,
        }
    }
}

/// The roll call that a JSON value holds.
pub open spec fn decode_rollcall(v: JsonView) -> Option<RollCallDataView> {
    match v {
        JsonView::Object(m) => {
            let rollcall_number = req_number(m, "rollcall_number"@, u32::MAX as nat);
            let vote_date = req_text(m, "vote_date"@);
            let vote_question = req_text(m, "vote_question"@);
            let vote_result = req_text(m, "vote_result"@);
            let vote_casts = match req_array(m, "vote_casts"@) {
                Some(items) => decode_votes(items),
                None => None,
            };
            if rollcall_number is Some && vote_date is Some && vote_question is Some
                && vote_result is Some && vote_casts is Some {
                Some(
                    RollCallDataView {
                        rollcall_number: rollcall_number->0,
                        vote_date: vote_date->0,
                        vote_question: vote_question->0,
                        vote_result: vote_result->0,
                        vote_casts: vote_casts->0,
                    },
                )
            } else {
                None
            }
        },
        _ => None,
    }
}

/// The roll calls that the items of an array hold; `None` if one holds none.
pub open spec fn decode_rollcalls(items: Seq<JsonView>) -> Option<Seq<RollCallDataView>>
    decreases items.len(),
{
    if items.len() == 0 {
        Some(Seq::empty())
    } else {
        match (decode_rollcalls(items.drop_last()), decode_rollcall(items.last())) {
            (Some(head), Some(x)) => Some(head.push(x)),
            _ => None,
        }
    }
}

/// The session that a JSON value holds.
pub open spec fn decode_session(v: JsonView) -> Option<SessionDataView> {
    match v {
        JsonView::Object(m) => match req_array(m, "rollcalls"@) {
            Some(items) => match decode_rollcalls(items) {
                Some(rollcalls) => Some(SessionDataView { rollcalls }),
                None => None,
            },
            None => None,
        },
        _ => None,
    }
}

/// The sessions that the members of an object hold, each under the number
/// that its name writes; of two members with one number the later counts.
pub open spec fn decode_sessions(members: Seq<JsonMemberView>) -> Option<Map<int, SessionDataView>>
    decreases members.len(),
{
    if members.len() == 0 {
        Some(Map::empty())
    } else {
        match (
            decode_sessions(members.drop_last()),
            unsigned_literal(members.last().name, u8::MAX as nat),
            decode_session(members.last().value),
        ) {
            (Some(head), Some(k), Some(x)) => Some(head.insert(k as int, x)),
            _ => None,
        }
    }
}

/// The congress that a JSON value holds.
pub open spec fn decode_congress(v: JsonView) -> Option<CongressDataView> {
    match v {
        JsonView::Object(m) => match req_object(m, "sessions"@) {
            Some(members) => match decode_sessions(members) {
                Some(sessions) => Some(CongressDataView { sessions }),
                None => None,
            },
            None => None,
        },
        _ => None,
    }
}

/// The congresses that the members of an object hold, each under the
/// number that its name writes; of two members with one number the later
/// counts.
pub open spec fn decode_congresses(members: Seq<JsonMemberView>) -> Option<
    Map<int, CongressDataView>,
>
    decreases members.len(),
{
    if members.len() == 0 {
        Some(Map::empty())
    } else {
        match (
            decode_congresses(members.drop_last()),
            unsigned_literal(members.last().name, u16::MAX as nat),
            decode_congress(members.last().value),
        ) {
            (Some(head), Some(k), Some(x)) => Some(head.insert(k as int, x)),
            _ => None,
        }
    }
}

/// The chamber that a JSON value holds.
pub open spec fn decode_chamber(v: JsonView) -> Option<ChamberDataView> {
    match v {
        JsonView::Object(m) => match req_object(m, "congresses"@) {
            Some(members) => match decode_congresses(members) {
                Some(congresses) => Some(ChamberDataView { congresses }),
                None => None,
            },
            None => None,
        },
        _ => None,
    }
}

/// The chambers that the members of an object hold, each under its name;
/// of two members with one name the later counts.
pub open spec fn decode_chambers(members: Seq<JsonMemberView>) -> Option<
    Map<Seq<char>, ChamberDataView>,
>
    decreases members.len(),
{
    if members.len() == 0 {
        Some(Map::empty())
    } else {
        match (decode_chambers(members.drop_last()), decode_chamber(members.last().value)) {
            (Some(head), Some(x)) => Some(head.insert(members.last().name, x)),
            _ => None,
        }
    }
}

/// The tree that a JSON document holds.
pub open spec fn decode_tree(v: JsonView) -> Option<CombinedDataView> {
    match v {
        JsonView::Object(m) => match req_object(m, "chambers"@) {
            Some(members) => match decode_chambers(members) {
                Some(chambers) => Some(CombinedDataView { chambers }),
                None => None,
            },
            None => None,
        },
        _ => None,
    }
}

/// The member at a place whose name stands at no earlier place is the
/// member that is found under its name.
pub proof fn lemma_member_at(members: Seq<JsonMemberView>, i: int)
    requires
        0 <= i < members.len(),
        forall|j: int| 0 <= j < i ==> (#[trigger] members[j]).name != members[i].name,
    ensures
        member(members, members[i].name) == Some(members[i].value),
    decreases members.len(),
{
    if i > 0 {
        let rest = members.skip(1);
        assert(members[0].name != members[i].name);
        assert(rest[i - 1] == members[i]);
        assert forall|j: int| 0 <= j < i - 1 implies (#[trigger] rest[j]).name != rest[i
            - 1].name by {
            assert(rest[j] == members[j + 1]);
        }
        lemma_member_at(rest, i - 1);
    }
}

/// A number within its width reads back from its decimal notation.
pub proof fn lemma_number_round_trip(n: int, max: nat)
    requires
        0 <= n <= max,
    ensures
        unsigned_literal(decimal(n as nat), max) == Some(n as nat),
{
    lemma_decimal_parses(n as nat, max);
}

/// The numbers of a vote are numbers of their widths.
pub open spec fn vote_in_range(v: UnifiedVoteView) -> bool {
    &&& 0 <= v.congress_number <= u16::MAX
    &&& 0 <= v.session_number <= u8::MAX
    &&& 0 <= v.rollcall_number <= u32::MAX
}

/// The numbers of a roll call and of its votes are numbers of their widths.
pub open spec fn rollcall_in_range(r: RollCallDataView) -> bool {
    &&& 0 <= r.rollcall_number <= u32::MAX
    &&& forall|i: int| 0 <= i < r.vote_casts.len() ==> vote_in_range(#[trigger] r.vote_casts[i])
}

/// The numbers of a session are numbers of their widths.
pub open spec fn session_in_range(s: SessionDataView) -> bool {
    forall|i: int| 0 <= i < s.rollcalls.len() ==> rollcall_in_range(#[trigger] s.rollcalls[i])
}

/// The numbers of a congress are numbers of their widths.
pub open spec fn congress_in_range(c: CongressDataView) -> bool {
    forall|k: int| #[trigger]
        c.sessions.contains_key(k) ==> 0 <= k <= u8::MAX && session_in_range(c.sessions[k])
}

/// The numbers of a chamber are numbers of their widths.
pub open spec fn chamber_in_range(c: ChamberDataView) -> bool {
    forall|k: int| #[trigger]
        c.congresses.contains_key(k) ==> 0 <= k <= u16::MAX && congress_in_range(c.congresses[k])
}

/// A vote reads back from its JSON object.
pub proof fn lemma_vote_round_trip(v: UnifiedVoteView)
    requires
        vote_in_range(v),
    ensures
        decode_vote(encode_vote(v)) == Some(v),
{
    let m = encode_vote(v)->Object_0;
    reveal_strlit("congress_number");
    reveal_strlit("chamber");
    reveal_strlit("session_number");
    reveal_strlit("rollcall_number");
    reveal_strlit("vote_date");
    reveal_strlit("vote_question");
    reveal_strlit("vote_result");
    reveal_strlit("legislator_id");
    reveal_strlit("legislator_name");
    reveal_strlit("party");
    reveal_strlit("state");
    reveal_strlit("vote_cast");
    assert("congress_number"@.len() == 15);
    assert("chamber"@.len() == 7);
    assert("session_number"@.len() == 14);
    assert("rollcall_number"@.len() == 15);
    assert("vote_date"@.len() == 9);
    assert("vote_question"@.len() == 13);
    assert("vote_result"@.len() == 11);
    assert("legislator_id"@.len() == 13);
    assert("legislator_name"@.len() == 15);
    assert("party"@.len() == 5);
    assert("state"@.len() == 5);
    assert("vote_cast"@.len() == 9);
    assert("vote_date"@[5] == 'd');
    assert("vote_cast"@[5] == 'c');
    assert("session_number"@[0] == 's');
    assert("legislator_id"@[0] == 'l');
    assert("rollcall_number"@[0] == 'r');
    assert("legislator_name"@[0] == 'l');
    assert("congress_number"@[0] == 'c');
    assert("party"@[0] == 'p');
    assert("state"@[0] == 's');
    assert("vote_question"@[0] == 'v');
    assert("vote_result"@[0] == 'v');
    lemma_member_at(m, 0);
    lemma_member_at(m, 1);
    lemma_member_at(m, 2);
    lemma_member_at(m, 3);
    lemma_member_at(m, 4);
    lemma_member_at(m, 5);
    lemma_member_at(m, 6);
    lemma_member_at(m, 7);
    lemma_member_at(m, 8);
    lemma_member_at(m, 9);
    lemma_member_at(m, 10);
    lemma_member_at(m, 11);
    lemma_number_round_trip(v.congress_number, u16::MAX as nat);
    lemma_number_round_trip(v.session_number, u8::MAX as nat);
    lemma_number_round_trip(v.rollcall_number, u32::MAX as nat);
}

/// A run of votes reads back from its JSON objects.
pub proof fn lemma_votes_round_trip(votes: Seq<UnifiedVoteView>)
    requires
        forall|i: int| 0 <= i < votes.len() ==> vote_in_range(#[trigger] votes[i]),
    ensures
        decode_votes(encode_votes(votes)) == Some(votes),
    decreases votes.len(),
{
    if votes.len() == 0 {
        assert(decode_votes(encode_votes(votes))->0 =~= votes);
    } else {
        let head = votes.drop_last();
        assert forall|i: int| 0 <= i < head.len() implies vote_in_range(#[trigger] head[i]) by {
            assert(head[i] == votes[i]);
        }
        lemma_votes_round_trip(head);
        assert(vote_in_range(votes[votes.len() - 1]));
        lemma_vote_round_trip(votes.last());
        assert(encode_votes(votes).drop_last() =~= encode_votes(head));
        assert(encode_votes(votes).last() == encode_vote(votes.last()));
        assert(head.push(votes.last()) =~= votes);
    }
}

/// A roll call reads back from its JSON object.
pub proof fn lemma_rollcall_round_trip(r: RollCallDataView)
    requires
        rollcall_in_range(r),
    ensures
        decode_rollcall(encode_rollcall(r)) == Some(r),
{
    let m = encode_rollcall(r)->Object_0;
    reveal_strlit("rollcall_number");
    reveal_strlit("vote_date");
    reveal_strlit("vote_question");
    reveal_strlit("vote_result");
    reveal_strlit("vote_casts");
    assert("rollcall_number"@.len() == 15);
    assert("vote_date"@.len() == 9);
    assert("vote_question"@.len() == 13);
    assert("vote_result"@.len() == 11);
    assert("vote_casts"@.len() == 10);
    assert("rollcall_number"@[0] == 'r');
    assert("vote_question"@[0] == 'v');
    assert("vote_result"@[0] == 'v');
    lemma_member_at(m, 0);
    lemma_member_at(m, 1);
    lemma_member_at(m, 2);
    lemma_member_at(m, 3);
    lemma_member_at(m, 4);
    lemma_number_round_trip(r.rollcall_number, u32::MAX as nat);
    lemma_votes_round_trip(r.vote_casts);
}

/// A run of roll calls reads back from its JSON objects.
pub proof fn lemma_rollcalls_round_trip(rollcalls: Seq<RollCallDataView>)
    requires
        forall|i: int| 0 <= i < rollcalls.len() ==> rollcall_in_range(#[trigger] rollcalls[i]),
    ensures
        decode_rollcalls(encode_rollcalls(rollcalls)) == Some(rollcalls),
    decreases rollcalls.len(),
{
    if rollcalls.len() == 0 {
        assert(decode_rollcalls(encode_rollcalls(rollcalls))->0 =~= rollcalls);
    } else {
        let head = rollcalls.drop_last();
        assert forall|i: int| 0 <= i < head.len() implies rollcall_in_range(
            #[trigger] head[i],
        ) by {
            assert(head[i] == rollcalls[i]);
        }
        lemma_rollcalls_round_trip(head);
        assert(rollcall_in_range(rollcalls[rollcalls.len() - 1]));
        lemma_rollcall_round_trip(rollcalls.last());
        assert(encode_rollcalls(rollcalls).drop_last() =~= encode_rollcalls(head));
        assert(encode_rollcalls(rollcalls).last() == encode_rollcall(rollcalls.last()));
        assert(head.push(rollcalls.last()) =~= rollcalls);
    }
}

/// A session reads back from its JSON object.
pub proof fn lemma_session_round_trip(s: SessionDataView)
    requires
        session_in_range(s),
    ensures
        decode_session(encode_session(s)) == Some(s),
{
    let m = encode_session(s)->Object_0;
    lemma_member_at(m, 0);
    lemma_rollcalls_round_trip(s.rollcalls);
}

/// The part of a map that lies below a number.
pub open spec fn below<V>(m: Map<int, V>, upto: int) -> Map<int, V> {
    Map::new(|k: int| 0 <= k < upto && m.contains_key(k), |k: int| m[k])
}

/// The sessions below a number read back from their members.
pub proof fn lemma_sessions_round_trip(sessions: Map<int, SessionDataView>, upto: int)
    requires
        0 <= upto <= u8::MAX + 1,
        forall|k: int| #[trigger] sessions.contains_key(k) ==> session_in_range(sessions[k]),
    ensures
        decode_sessions(encode_sessions(sessions, upto)) == Some(below(sessions, upto)),
    decreases upto,
{
    if upto == 0 {
        assert(below(sessions, upto) =~= Map::empty());
    } else {
        lemma_sessions_round_trip(sessions, upto - 1);
        let head = encode_sessions(sessions, upto - 1);
        if sessions.contains_key(upto - 1) {
            let all = encode_sessions(sessions, upto);
            assert(all.drop_last() == head);
            lemma_number_round_trip(upto - 1, u8::MAX as nat);
            lemma_session_round_trip(sessions[upto - 1]);
            assert(below(sessions, upto) =~= below(sessions, upto - 1).insert(
                upto - 1,
                sessions[upto - 1],
            ));
        } else {
            assert(below(sessions, upto) =~= below(sessions, upto - 1));
        }
    }
}

/// A congress reads back from its JSON object.
pub proof fn lemma_congress_round_trip(c: CongressDataView)
    requires
        congress_in_range(c),
    ensures
        decode_congress(encode_congress(c)) == Some(c),
{
    let m = encode_congress(c)->Object_0;
    lemma_member_at(m, 0);
    lemma_sessions_round_trip(c.sessions, u8::MAX + 1);
    assert(below(c.sessions, u8::MAX + 1) =~= c.sessions);
}

/// The congresses below a number read back from their members.
pub proof fn lemma_congresses_round_trip(congresses: Map<int, CongressDataView>, upto: int)
    requires
        0 <= upto <= u16::MAX + 1,
        forall|k: int| #[trigger] congresses.contains_key(k) ==> congress_in_range(congresses[k]),
    ensures
        decode_congresses(encode_congresses(congresses, upto)) == Some(below(congresses, upto)),
    decreases upto,
{
    if upto == 0 {
        assert(below(congresses, upto) =~= Map::empty());
    } else {
        lemma_congresses_round_trip(congresses, upto - 1);
        let head = encode_congresses(congresses, upto - 1);
        if congresses.contains_key(upto - 1) {
            let all = encode_congresses(congresses, upto);
            assert(all.drop_last() == head);
            lemma_number_round_trip(upto - 1, u16::MAX as nat);
            lemma_congress_round_trip(congresses[upto - 1]);
            assert(below(congresses, upto) =~= below(congresses, upto - 1).insert(
                upto - 1,
                congresses[upto - 1],
            ));
        } else {
            assert(below(congresses, upto) =~= below(congresses, upto - 1));
        }
    }
}

/// A chamber reads back from its JSON object.
pub proof fn lemma_chamber_round_trip(c: ChamberDataView)
    requires
        chamber_in_range(c),
    ensures
        decode_chamber(encode_chamber(c)) == Some(c),
{
    let m = encode_chamber(c)->Object_0;
    lemma_member_at(m, 0);
    lemma_congresses_round_trip(c.congresses, u16::MAX + 1);
    assert(below(c.congresses, u16::MAX + 1) =~= c.congresses);
}

/// The tree files a name if and only if a chamber of the list bears it.
pub proof fn lemma_names_chamber(chambers: Seq<ChamberEntry>, name: Seq<char>)
    ensures
        names_chamber(chambers, name) <==> chamber_views(chambers).contains_key(name),
    decreases chambers.len(),
{
    if chambers.len() > 0 {
        let rest = chambers.drop_first();
        lemma_names_chamber(rest, name);
        if names_chamber(chambers, name) {
            let j = choose|j: int|
                0 <= j < chambers.len() && (#[trigger] chambers[j]).name@ == name;
            if j > 0 {
                assert(rest[j - 1] == chambers[j]);
            }
        }
        if names_chamber(rest, name) {
            let j = choose|j: int| 0 <= j < rest.len() && (#[trigger] rest[j]).name@ == name;
            assert(rest[j] == chambers[j + 1]);
        }
        if chambers[0].name@ == name {
            assert(names_chamber(chambers, name));
        }
    }
}

/// A chamber added at the end of the list is filed under its name where
/// the tree files nothing under it yet, and changes nothing where it does.
pub proof fn lemma_chamber_views_push(chambers: Seq<ChamberEntry>, entry: ChamberEntry)
    ensures
        chamber_views(chambers.push(entry)) == if chamber_views(chambers).contains_key(
            entry.name@,
        ) {
            chamber_views(chambers)
        } else {
            chamber_views(chambers).insert(entry.name@, entry.data.deep_view())
        },
    decreases chambers.len(),
{
    let grown = chambers.push(entry);
    if chambers.len() == 0 {
        assert(grown.drop_first() =~= Seq::<ChamberEntry>::empty());
        assert(chamber_views(grown.drop_first()) =~= Map::empty());
        assert(chamber_views(grown) =~= chamber_views(chambers).insert(
            entry.name@,
            entry.data.deep_view(),
        ));
    } else {
        let rest = chambers.drop_first();
        lemma_chamber_views_push(rest, entry);
        assert(grown.drop_first() == rest.push(entry));
        assert(grown[0] == chambers[0]);
        if chamber_views(chambers).contains_key(entry.name@) {
            assert(chamber_views(grown) =~= chamber_views(chambers));
        } else {
            assert(chamber_views(grown) =~= chamber_views(chambers).insert(
                entry.name@,
                entry.data.deep_view(),
            ));
        }
    }
}

/// The numbers of a vote that a program holds are numbers of their widths.
pub proof fn lemma_votes_in_range(votes: Vec<UnifiedVote>)
    ensures
        forall|i: int|
            0 <= i < votes.deep_view().len() ==> vote_in_range(#[trigger] votes.deep_view()[i]),
{
    assert forall|i: int| 0 <= i < votes.deep_view().len() implies vote_in_range(
        #[trigger] votes.deep_view()[i],
    ) by {
        assert(votes.deep_view()[i] == votes@[i].deep_view());
    }
}

/// The numbers of a session that a program holds are numbers of their widths.
pub proof fn lemma_session_in_range(session: SessionData)
    ensures
        session_in_range(session.deep_view()),
{
    let view = session.deep_view();
    assert forall|i: int| 0 <= i < view.rollcalls.len() implies rollcall_in_range(
        #[trigger] view.rollcalls[i],
    ) by {
        assert(view.rollcalls[i] == session.rollcalls@[i].deep_view());
        lemma_votes_in_range(session.rollcalls@[i].vote_casts);
    }
}

/// The numbers of a congress that a program holds are numbers of their widths.
pub proof fn lemma_congress_in_range(congress: CongressData)
    ensures
        congress_in_range(congress.deep_view()),
{
    let view = congress.deep_view();
    assert forall|k: int| #[trigger] view.sessions.contains_key(k) implies 0 <= k <= u8::MAX
        && session_in_range(view.sessions[k]) by {
        lemma_session_in_range(congress.sessions@[k as u8]);
    }
}

/// The numbers of a chamber that a program holds are numbers of their widths.
pub proof fn lemma_chamber_in_range(chamber: ChamberData)
    ensures
        chamber_in_range(chamber.deep_view()),
{
    let view = chamber.deep_view();
    assert forall|k: int| #[trigger] view.congresses.contains_key(k) implies 0 <= k <= u16::MAX
        && congress_in_range(view.congresses[k]) by {
        lemma_congress_in_range(chamber.congresses@[k as u16]);
    }
}

/// The chambers of a list read back from their members as the tree that
/// the list stands for.
pub proof fn lemma_chambers_round_trip(chambers: Seq<ChamberEntry>)
    ensures
        decode_chambers(encode_chambers(chambers)) == Some(chamber_views(chambers)),
    decreases chambers.len(),
{
    if chambers.len() == 0 {
        assert(chamber_views(chambers) =~= Map::empty());
    } else {
        let head = chambers.drop_last();
        let last = chambers.last();
        lemma_chambers_round_trip(head);
        lemma_names_chamber(head, last.name@);
        lemma_chamber_views_push(head, last);
        assert(head.push(last) =~= chambers);
        if !names_chamber(head, last.name@) {
            let all = encode_chambers(chambers);
            assert(all.drop_last() == encode_chambers(head));
            lemma_chamber_in_range(last.data);
            lemma_chamber_round_trip(last.data.deep_view());
        }
    }
}

/// Writing the tree as a JSON document and reading the document back gives
/// the tree: every chamber, congress, session and roll call with its votes
/// in their order.
pub proof fn lemma_tree_round_trip(tree: CombinedData)
    ensures
        decode_tree(encode_tree(tree.chambers@)) == Some(tree.deep_view()),
{
    let m = encode_tree(tree.chambers@)->Object_0;
    lemma_member_at(m, 0);
    lemma_chambers_round_trip(tree.chambers@);
}

/// The number that a JSON number literal writes.
pub fn literal_number(literal: &str, max: u64) -> (r: Option<u64>)
    ensures
        match r {
            Some(n) => unsigned_literal(literal@, max as nat) == Some(n as nat),
            None => unsigned_literal(literal@, max as nat) is None,
        },
{
    if literal.unicode_len() == 0 || literal.get_char(0) == '+' {
        return None;
    }
    parse_bounded(literal, max)
}

/// Reads a whole number from zero to `max` that has to be there.
pub fn req_number_field(members: &Vec<JsonMember>, key: &str, max: u64) -> (r: Option<u64>)
    ensures
        match r {
            Some(n) => req_number(member_views(members@), key@, max as nat) == Some(n as int),
            None => req_number(member_views(members@), key@, max as nat) is None,
        },
{
    match find_member(members, key) {
        Some(JsonValue::Number(literal)) => literal_number(literal.as_str(), max),
        _ => None,
    }
}

/// Reads the vote that a JSON value holds.
pub fn vote_from_json(v: &JsonValue) -> (r: Option<UnifiedVote>)
    ensures
        r.deep_view() == decode_vote(v.deep_view()),
{
    proof {
        lemma_json_view(*v);
    }
    match v {
        JsonValue::Object(members) => {
            let congress_number = match req_number_field(members, "congress_number", 0xffff) {
                Some(n) => n as u16,
                None => {
                    return None;
                },
            };
            let chamber = match req_text_field(members, "chamber") {
                Some(x) => x,
                None => {
                    return None;
                },
            };
            let session_number = match req_number_field(members, "session_number", 0xff) {
                Some(n) => n as u8,
                None => {
                    return None;
                },
            };
            let rollcall_number = match req_number_field(members, "rollcall_number", 0xffff_ffff) {
                Some(n) => n as u32,
                None => {
                    return None;
                },
            };
            let vote_date = match req_text_field(members, "vote_date") {
                Some(x) => x,
                None => {
                    return None;
                },
            };
            let vote_question = match req_text_field(members, "vote_question") {
                Some(x) => x,
                None => {
                    return None;
                },
            };
            let vote_result = match req_text_field(members, "vote_result") {
                Some(x) => x,
                None => {
                    return None;
                },
            };
            let legislator_id = match req_text_field(members, "legislator_id") {
                Some(x) => x,
                None => {
                    return None;
                },
            };
            let legislator_name = match req_text_field(members, "legislator_name") {
                Some(x) => x,
                None => {
                    return None;
                },
            };
            let party = match req_text_field(members, "party") {
                Some(x) => x,
                None => {
                    return None;
                },
            };
            let state = match req_text_field(members, "state") {
                Some(x) => x,
                None => {
                    return None;
                },
            };
            let vote_cast = match req_text_field(members, "vote_cast") {
                Some(x) => x,
                None => {
                    return None;
                },
            };
            Some(
                UnifiedVote {
                    congress_number,
                    chamber,
                    session_number,
                    rollcall_number,
                    vote_date,
                    vote_question,
                    vote_result,
                    legislator_id,
                    legislator_name,
                    party,
                    state,
                    vote_cast,
                },
            )
        },
        _ => None,
    }
}

/// A run of items whose beginning holds something else than votes holds
/// something else than votes.
pub proof fn lemma_decode_votes_prefix(items: Seq<JsonView>, k: int)
    requires
        0 <= k <= items.len(),
        decode_votes(items.take(k)) is None,
    ensures
        decode_votes(items) is None,
    decreases items.len() - k,
{
    if k < items.len() {
        assert(items.take(k + 1).drop_last() == items.take(k));
        lemma_decode_votes_prefix(items, k + 1);
    } else {
        assert(items.take(k) == items);
    }
}

/// A run of items whose beginning holds something else than roll calls
/// holds something else than roll calls.
pub proof fn lemma_decode_rollcalls_prefix(items: Seq<JsonView>, k: int)
    requires
        0 <= k <= items.len(),
        decode_rollcalls(items.take(k)) is None,
    ensures
        decode_rollcalls(items) is None,
    decreases items.len() - k,
{
    if k < items.len() {
        assert(items.take(k + 1).drop_last() == items.take(k));
        lemma_decode_rollcalls_prefix(items, k + 1);
    } else {
        assert(items.take(k) == items);
    }
}

/// Reads the votes that the items of an array hold.
pub fn votes_from_json(items: &Vec<JsonValue>) -> (r: Option<Vec<UnifiedVote>>)
    ensures
        r.deep_view() == decode_votes(views_of(items@)),
{
    let ghost want = views_of(items@);
    let mut out: Vec<UnifiedVote> = Vec::new();
    let mut i: usize = 0;
    assert(want.take(0) == Seq::<JsonView>::empty());
    assert(out.deep_view() =~= Seq::<UnifiedVoteView>::empty());
    while i < items.len()
        invariant
            i <= items@.len(),
            want == views_of(items@),
            decode_votes(want.take(i as int)) == Some(out.deep_view()),
        decreases items@.len() - i,
    {
        proof {
            assert(want[i as int] == items@[i as int].deep_view());
            assert(want.take(i + 1).drop_last() == want.take(i as int));
            assert(want.take(i + 1).last() == want[i as int]);
        }
        match vote_from_json(&items[i]) {
            Some(x) => {
                let ghost before = out.deep_view();
                let ghost added = x.deep_view();
                out.push(x);
                assert(out.deep_view() =~= before.push(added));
            },
            None => {
                proof {
                    lemma_decode_votes_prefix(want, i + 1);
                }
                return None;
            },
        }
        i += 1;
    }
    assert(want.take(i as int) == want);
    Some(out)
}

/// Reads the roll call that a JSON value holds.
pub fn rollcall_from_json(v: &JsonValue) -> (r: Option<RollCallData>)
    ensures
        r.deep_view() == decode_rollcall(v.deep_view()),
{
    proof {
        lemma_json_view(*v);
    }
    match v {
        JsonValue::Object(members) => {
            let rollcall_number = match req_number_field(members, "rollcall_number", 0xffff_ffff) {
                Some(n) => n as u32,
                None => {
                    return None;
                },
            };
            let vote_date = match req_text_field(members, "vote_date") {
                Some(x) => x,
                None => {
                    return None;
                },
            };
            let vote_question = match req_text_field(members, "vote_question") {
                Some(x) => x,
                None => {
                    return None;
                },
            };
            let vote_result = match req_text_field(members, "vote_result") {
                Some(x) => x,
                None => {
                    return None;
                },
            };
            let vote_casts = match find_member(members, "vote_casts") {
                Some(JsonValue::Array(items)) => {
                    proof {
                        lemma_json_view(JsonValue::Array(*items));
                    }
                    match votes_from_json(items) {
                        Some(x) => x,
                        None => {
                            return None;
                        },
                    }
                },
                _ => {
                    return None;
                },
            };
            Some(
                RollCallData { rollcall_number, vote_date, vote_question, vote_result, vote_casts },
            )
        },
        _ => None,
    }
}

/// Reads the session that a JSON value holds.
pub fn session_from_json(v: &JsonValue) -> (r: Option<SessionData>)
    ensures
        r.deep_view() == decode_session(v.deep_view()),
{
    proof {
        lemma_json_view(*v);
    }
    match v {
        JsonValue::Object(members) => match find_member(members, "rollcalls") {
            Some(JsonValue::Array(items)) => {
                proof {
                    lemma_json_view(JsonValue::Array(*items));
                }
                let ghost want = views_of(items@);
                let mut out: Vec<RollCallData> = Vec::new();
                let mut i: usize = 0;
                assert(want.take(0) == Seq::<JsonView>::empty());
                assert(out.deep_view() =~= Seq::<RollCallDataView>::empty());
                while i < items.len()
                    invariant
                        i <= items@.len(),
                        want == views_of(items@),
                        decode_rollcalls(want) is None ==> decode_session(v.deep_view()) is None,
                        decode_rollcalls(want.take(i as int)) == Some(out.deep_view()),
                    decreases items@.len() - i,
                {
                    proof {
                        assert(want[i as int] == items@[i as int].deep_view());
                        assert(want.take(i + 1).drop_last() == want.take(i as int));
                        assert(want.take(i + 1).last() == want[i as int]);
                    }
                    match rollcall_from_json(&items[i]) {
                        Some(x) => {
                            let ghost before = out.deep_view();
                            let ghost added = x.deep_view();
                            out.push(x);
                            assert(out.deep_view() =~= before.push(added));
                        },
                        None => {
                            proof {
                                lemma_decode_rollcalls_prefix(want, i + 1);
                            }
                            return None;
                        },
                    }
                    i += 1;
                }
                assert(want.take(i as int) == want);
                Some(SessionData { rollcalls: out })
            },
            _ => None,
        },
        _ => None,
    }
}

/// Members whose beginning holds something else than sessions hold
/// something else than sessions.
pub proof fn lemma_decode_sessions_prefix(members: Seq<JsonMemberView>, k: int)
    requires
        0 <= k <= members.len(),
        decode_sessions(members.take(k)) is None,
    ensures
        decode_sessions(members) is None,
    decreases members.len() - k,
{
    if k < members.len() {
        assert(members.take(k + 1).drop_last() == members.take(k));
        lemma_decode_sessions_prefix(members, k + 1);
    } else {
        assert(members.take(k) == members);
    }
}

/// Members whose beginning holds something else than congresses hold
/// something else than congresses.
pub proof fn lemma_decode_congresses_prefix(members: Seq<JsonMemberView>, k: int)
    requires
        0 <= k <= members.len(),
        decode_congresses(members.take(k)) is None,
    ensures
        decode_congresses(members) is None,
    decreases members.len() - k,
{
    if k < members.len() {
        assert(members.take(k + 1).drop_last() == members.take(k));
        lemma_decode_congresses_prefix(members, k + 1);
    } else {
        assert(members.take(k) == members);
    }
}

/// Members whose beginning holds something else than chambers hold
/// something else than chambers.
pub proof fn lemma_decode_chambers_prefix(members: Seq<JsonMemberView>, k: int)
    requires
        0 <= k <= members.len(),
        decode_chambers(members.take(k)) is None,
    ensures
        decode_chambers(members) is None,
    decreases members.len() - k,
{
    if k < members.len() {
        assert(members.take(k + 1).drop_last() == members.take(k));
        lemma_decode_chambers_prefix(members, k + 1);
    } else {
        assert(members.take(k) == members);
    }
}

/// Reads the congress that a JSON value holds.
pub fn congress_from_json(v: &JsonValue) -> (r: Option<CongressData>)
    ensures
        r.deep_view() == decode_congress(v.deep_view()),
{
    broadcast use vstd::std_specs::hash::group_hash_axioms;

    proof {
        lemma_json_view(*v);
    }
    match v {
        JsonValue::Object(outer) => match find_member(outer, "sessions") {
            Some(JsonValue::Object(members)) => {
                proof {
                    lemma_json_view(JsonValue::Object(*members));
                }
                let ghost want = member_views(members@);
                let mut out: HashMap<u8, SessionData> = HashMap::new();
                let mut i: usize = 0;
                assert(want.take(0) == Seq::<JsonMemberView>::empty());
                assert(session_views(out@) =~= Map::empty());
                while i < members.len()
                    invariant
                        i <= members@.len(),
                        want == member_views(members@),
                        decode_sessions(want) is None ==> decode_congress(v.deep_view()) is None,
                        decode_sessions(want.take(i as int)) == Some(session_views(out@)),
                    decreases members@.len() - i,
                {
                    proof {
                        assert(want[i as int].value == members@[i as int].value.deep_view());
                        assert(want[i as int].name == members@[i as int].name@);
                        assert(want.take(i + 1).drop_last() == want.take(i as int));
                        assert(want.take(i + 1).last() == want[i as int]);
                    }
                    let key = literal_number(members[i].name.as_str(), 0xff);
                    let value = session_from_json(&members[i].value);
                    match (key, value) {
                        (Some(k), Some(x)) => {
                            let ghost before = out@;
                            let ghost added = x.deep_view();
                            out.insert(k as u8, x);
                            assert(session_views(out@) =~= session_views(before).insert(
                                k as int,
                                added,
                            ));
                        },
                        _ => {
                            proof {
                                lemma_decode_sessions_prefix(want, i + 1);
                            }
                            return None;
                        },
                    }
                    i += 1;
                }
                assert(want.take(i as int) == want);
                Some(CongressData { sessions: out })
            },
            _ => None,
        },
        _ => None,
    }
}

/// Reads the chamber that a JSON value holds.
pub fn chamber_from_json(v: &JsonValue) -> (r: Option<ChamberData>)
    ensures
        r.deep_view() == decode_chamber(v.deep_view()),
{
    broadcast use vstd::std_specs::hash::group_hash_axioms;

    proof {
        lemma_json_view(*v);
    }
    match v {
        JsonValue::Object(outer) => match find_member(outer, "congresses") {
            Some(JsonValue::Object(members)) => {
                proof {
                    lemma_json_view(JsonValue::Object(*members));
                }
                let ghost want = member_views(members@);
                let mut out: HashMap<u16, CongressData> = HashMap::new();
                let mut i: usize = 0;
                assert(want.take(0) == Seq::<JsonMemberView>::empty());
                assert(congress_views(out@) =~= Map::empty());
                while i < members.len()
                    invariant
                        i <= members@.len(),
                        want == member_views(members@),
                        decode_congresses(want) is None ==> decode_chamber(v.deep_view()) is None,
                        decode_congresses(want.take(i as int)) == Some(congress_views(out@)),
                    decreases members@.len() - i,
                {
                    proof {
                        assert(want[i as int].value == members@[i as int].value.deep_view());
                        assert(want[i as int].name == members@[i as int].name@);
                        assert(want.take(i + 1).drop_last() == want.take(i as int));
                        assert(want.take(i + 1).last() == want[i as int]);
                    }
                    let key = literal_number(members[i].name.as_str(), 0xffff);
                    let value = congress_from_json(&members[i].value);
                    match (key, value) {
                        (Some(k), Some(x)) => {
                            let ghost before = out@;
                            let ghost added = x.deep_view();
                            out.insert(k as u16, x);
                            assert(congress_views(out@) =~= congress_views(before).insert(
                                k as int,
                                added,
                            ));
                        },
                        _ => {
                            proof {
                                lemma_decode_congresses_prefix(want, i + 1);
                            }
                            return None;
                        },
                    }
                    i += 1;
                }
                assert(want.take(i as int) == want);
                Some(ChamberData { congresses: out })
            },
            _ => None,
        },
        _ => None,
    }
}

/// Reads the tree that a JSON document holds.
pub fn combined_data_from_json(v: &JsonValue) -> (r: Option<CombinedData>)
    ensures
        r.deep_view() == decode_tree(v.deep_view()),
{
    proof {
        lemma_json_view(*v);
    }
    match v {
        JsonValue::Object(outer) => match find_member(outer, "chambers") {
            Some(JsonValue::Object(members)) => {
                proof {
                    lemma_json_view(JsonValue::Object(*members));
                }
                let ghost want = member_views(members@);
                let mut out: Vec<ChamberEntry> = Vec::new();
                let mut i: usize = 0;
                assert(want.take(0) == Seq::<JsonMemberView>::empty());
                while i < members.len()
                    invariant
                        i <= members@.len(),
                        want == member_views(members@),
                        decode_chambers(want) is None ==> decode_tree(v.deep_view()) is None,
                        decode_chambers(want.take(i as int)) == Some(chamber_views(out@)),
                    decreases members@.len() - i,
                {
                    proof {
                        assert(want[i as int].value == members@[i as int].value.deep_view());
                        assert(want[i as int].name == members@[i as int].name@);
                        assert(want.take(i + 1).drop_last() == want.take(i as int));
                        assert(want.take(i + 1).last() == want[i as int]);
                    }
                    match chamber_from_json(&members[i].value) {
                        Some(data) => {
                            let ghost before = out@;
                            let name = members[i].name.clone();
                            match find_chamber(&out, name.as_str()) {
                                Some(p) => {
                                    let entry = ChamberEntry { name, data };
                                    proof {
                                        lemma_chamber_update(before, p as int, entry);
                                    }
                                    out[p] = entry;
                                    assert(out@ =~= before.update(p as int, entry));
                                },
                                None => {
                                    let entry = ChamberEntry { name, data };
                                    proof {
                                        lemma_chamber_push(before, entry);
                                    }
                                    out.push(entry);
                                },
                            }
                        },
                        None => {
                            proof {
                                lemma_decode_chambers_prefix(want, i + 1);
                            }
                            return None;
                        },
                    }
                    i += 1;
                }
                assert(want.take(i as int) == want);
                Some(CombinedData { chambers: out })
            },
            _ => None,
        },
        _ => None,
    }
}

/// Reads the tree back from the text of its JSON document; `None` where
/// the text is no JSON document or the document holds no tree.
pub fn parse_combined_data(text: &str) -> (r: Option<CombinedData>)
    ensures
        r.deep_view() == match json_document(text@) {
            Some(document) => decode_tree(document),
            None => None,
        },
{
    match parse(text) {
        Ok(document) => combined_data_from_json(&document),
        Err(_) => None,
    }
}

} // verus!
