//! From a Senate roll call as it is published to the normalized record that
//! is stored: every missing text replaced by a sentinel, documents and
//! amendments as lists, counts as numbers, and each senator with a generated
//! identifier.
use crate::fields::{text_or, text_or_else};
use crate::json::{json_text, write_compact, JsonMember, JsonMemberView, JsonValue, JsonView};
use crate::responses::{Response, ResponseView};
use crate::senate::{
    AmendmentSenate, AmendmentSenateView, CountSenate, CountSenateView, DocumentSenate,
    DocumentSenateView, MemberSenate, MemberSenateView, MembersSenate, MembersSenateView,
    ResponseSpecific, ResponseSpecificView,
    RollCallVoteSenate, RollCallVoteSenateView, VoteCastMap, VoteCastMapView,
};
use crate::sqllite::{generate_hash, identity_hash, member_hash, text_hash};
use crate::text::{parse_bounded, parse_unsigned};
use vstd::prelude::*;
use vstd::string::*;

verus! {

/// A legislator as both chambers know one, with the identifier generated
/// from last name, party and state. Two legislators who share all three
/// share the identifier.
#[derive(Debug)]
pub struct CongressionalMember {
    pub last_name: String,
    pub party: String,
    pub state: String,
    pub generated_id: String,
}

/// The mathematical model of a `CongressionalMember`.
pub struct CongressionalMemberView {
    pub last_name: Seq<char>,
    pub party: Seq<char>,
    pub state: Seq<char>,
    pub generated_id: Seq<char>,
}

impl DeepView for CongressionalMember {
    type V = CongressionalMemberView;

    open spec fn deep_view(&self) -> CongressionalMemberView {
        CongressionalMemberView {
            last_name: self.last_name@,
            party: self.party@,
            state: self.state@,
            generated_id: self.generated_id@,
        }
    }
}

impl Default for CongressionalMember {
    fn default() -> (r: Self)
        ensures
            r.deep_view() == (CongressionalMemberView {
                last_name: Seq::empty(),
                party: Seq::empty(),
                state: Seq::empty(),
                generated_id: Seq::empty(),
            }),
    {
        CongressionalMember {
            last_name: String::new(),
            party: String::new(),
            state: String::new(),
            generated_id: String::new(),
        }
    }
}

/// A Senate roll call, normalized.
#[derive(Debug)]
pub struct SenateInfo {
    pub congress_number: u16,
    pub session_number: u8,
    pub rollcall_number: u32,
    pub chamber: String,
    pub year: u16,
    pub vote_hash: String,
    pub vote_date: String,
    pub vote_modify_date: String,
    pub vote_question: String,
    pub vote_question_text: String,
    pub vote_document_text: String,
    pub vote_result: String,
    pub vote_title: String,
    pub majority_requirement: String,
    pub documents: Vec<DocumentSenate>,
    pub amendments: Vec<AmendmentSenate>,
    pub yay: u32,
    pub nay: u32,
    pub present: u32,
    pub absent: u32,
    pub tie_breaker_name: String,
    pub tie_breaker_paired: String,
    pub members_as_is: Vec<MemberSenate>,
    pub members_to_gen: Vec<CongressionalMember>,
}

/// The mathematical model of a `SenateInfo`.
pub struct SenateInfoView {
    pub congress_number: int,
    pub session_number: int,
    pub rollcall_number: int,
    pub chamber: Seq<char>,
    pub year: int,
    pub vote_hash: Seq<char>,
    pub vote_date: Seq<char>,
    pub vote_modify_date: Seq<char>,
    pub vote_question: Seq<char>,
    pub vote_question_text: Seq<char>,
    pub vote_document_text: Seq<char>,
    pub vote_result: Seq<char>,
    pub vote_title: Seq<char>,
    pub majority_requirement: Seq<char>,
    pub documents: Seq<DocumentSenateView>,
    pub amendments: Seq<AmendmentSenateView>,
    pub yay: int,
    pub nay: int,
    pub present: int,
    pub absent: int,
    pub tie_breaker_name: Seq<char>,
    pub tie_breaker_paired: Seq<char>,
    pub members_as_is: Seq<MemberSenateView>,
    pub members_to_gen: Seq<CongressionalMemberView>,
}

impl DeepView for SenateInfo {
    type V = SenateInfoView;

    open spec fn deep_view(&self) -> SenateInfoView {
        SenateInfoView {
            congress_number: self.congress_number as int,
            session_number: self.session_number as int,
            rollcall_number: self.rollcall_number as int,
            chamber: self.chamber@,
            year: self.year as int,
            vote_hash: self.vote_hash@,
            vote_date: self.vote_date@,
            vote_modify_date: self.vote_modify_date@,
            vote_question: self.vote_question@,
            vote_question_text: self.vote_question_text@,
            vote_document_text: self.vote_document_text@,
            vote_result: self.vote_result@,
            vote_title: self.vote_title@,
            majority_requirement: self.majority_requirement@,
            documents: self.documents.deep_view(),
            amendments: self.amendments.deep_view(),
            yay: self.yay as int,
            nay: self.nay as int,
            present: self.present as int,
            absent: self.absent as int,
            tie_breaker_name: self.tie_breaker_name@,
            tie_breaker_paired: self.tie_breaker_paired@,
            members_as_is: self.members_as_is.deep_view(),
            members_to_gen: self.members_to_gen.deep_view(),
        }
    }
}

/// The text that a loosely typed field holds; `null` where it holds no text.
pub open spec fn text_or_null(r: ResponseView) -> Seq<char> {
    match r {
        ResponseView::String(s) => s,
        _ => "null"@,
    }
}

/// The text that a loosely typed field holds; `null` where it holds no text.
pub fn response_text(r: &Response) -> (out: String)
    ensures
        out@ == text_or_null(r.deep_view()),
{
    match r {
        Response::String(s) => s.clone(),
        _ => String::from_str("null"),
    }
}

/// The number that a text writes where it is a number of the given width,
/// else the number to fall back on.
pub open spec fn number_or(text: Seq<char>, max: nat, fallback: int) -> int {
    match parse_unsigned(text, max) {
        Some(n) => n as int,
        None => fallback,
    }
}

/// A count that is published as a text: the number it writes, zero where
/// it is missing or writes none.
pub open spec fn count_of_text(o: Option<Seq<char>>) -> int {
    match o {
        Some(s) => number_or(s, u32::MAX as nat, 0),
        None => 0,
    }
}

/// A count that is published as a text or as a number: the number, zero
/// where it is missing or neither.
pub open spec fn count_of_response(o: Option<ResponseView>) -> int {
    match o {
        Some(ResponseView::String(s)) => number_or(s, u32::MAX as nat, 0),
        Some(ResponseView::U32(n)) => n,
        _ => 0,
    }
}

/// Whether a count that is published as a text is there and writes no
/// number, so that it is taken for zero.
pub open spec fn text_count_fails(o: Option<Seq<char>>) -> bool {
    o matches Some(s) && parse_unsigned(s, u32::MAX as nat) is None
}

/// Whether a count that is published as a text or as a number is there and
/// is neither a number nor a text that writes one, so that it is taken for
/// zero.
pub open spec fn response_count_fails(o: Option<ResponseView>) -> bool {
    match o {
        Some(ResponseView::String(s)) => parse_unsigned(s, u32::MAX as nat) is None,
        Some(ResponseView::U32(_)) => false,
        Some(_) => true,
        None => false,
    }
}

/// How many of the four counts of a roll call are there and taken for zero
/// because they are no numbers.
pub open spec fn unreadable_counts(o: Option<CountSenateView>) -> int {
    match o {
        Some(count) => (if text_count_fails(count.yeas) {
            1int
        } else {
            0int
        }) + (if text_count_fails(count.nays) {
            1int
        } else {
            0int
        }) + (if response_count_fails(count.present) {
            1int
        } else {
            0int
        }) + (if response_count_fails(count.absent) {
            1int
        } else {
            0int
        }),
        None => 0,
    }
}

/// Whether a count that is published as a text is taken for zero.
fn text_count_is_unreadable(o: &Option<String>) -> (r: bool)
    ensures
        r == text_count_fails(o.deep_view()),
{
    match o {
        Some(s) => parse_bounded(s.as_str(), 0xffff_ffff).is_none(),
        None => false,
    }
}

/// Whether a count that is published as a text or as a number is taken for zero.
fn response_count_is_unreadable(o: &Option<Response>) -> (r: bool)
    ensures
        r == response_count_fails(o.deep_view()),
{
    match o {
        Some(Response::String(s)) => parse_bounded(s.as_str(), 0xffff_ffff).is_none(),
        Some(Response::U32(_)) => false,
        Some(_) => true,
        None => false,
    }
}

/// How many of the four counts of a roll call are taken for zero because
/// they are no numbers. Normalizing goes on all the same; this is for the
/// log.
pub fn count_unreadable(o: &Option<CountSenate>) -> (n: u8)
    ensures
        n == unreadable_counts(o.deep_view()),
{
    match o {
        Some(count) => {
            let mut n: u8 = 0;
            if text_count_is_unreadable(&count.yeas) {
                n += 1;
            }
            if text_count_is_unreadable(&count.nays) {
                n += 1;
            }
            if response_count_is_unreadable(&count.present) {
                n += 1;
            }
            if response_count_is_unreadable(&count.absent) {
                n += 1;
            }
            n
        },
        None => 0,
    }
}

/// A count that is published as a text.
pub fn text_count(o: &Option<String>) -> (n: u32)
    ensures
        n == count_of_text(o.deep_view()),
{
    match o {
        Some(s) => match parse_bounded(s.as_str(), 0xffff_ffff) {
            Some(n) => n as u32,
            None => 0,
        },
        None => 0,
    }
}

/// A count that is published as a text or as a number.
pub fn response_count(o: &Option<Response>) -> (n: u32)
    ensures
        n == count_of_response(o.deep_view()),
{
    match o {
        Some(Response::String(s)) => match parse_bounded(s.as_str(), 0xffff_ffff) {
            Some(n) => n as u32,
            None => 0,
        },
        Some(Response::U32(n)) => *n,
        _ => 0,
    }
}

/// The documents of a roll call as a list: the one document, the documents
/// of the list, or one empty document where the field is missing or holds
/// something else.
pub open spec fn documents_of(o: Option<ResponseSpecificView>) -> Seq<DocumentSenateView> {
    match o {
        Some(ResponseSpecificView::DocumentSenate(d)) => seq![d],
        Some(ResponseSpecificView::DSMap(list)) => list,
        _ => seq![DocumentSenate::default_view()],
    }
}

/// The amendments of a roll call as a list: the one amendment, the
/// amendments of the list, or one empty amendment where the field is missing
/// or holds something else.
pub open spec fn amendments_of(o: Option<ResponseSpecificView>) -> Seq<AmendmentSenateView> {
    match o {
        Some(ResponseSpecificView::AmendmentSenate(a)) => seq![a],
        Some(ResponseSpecificView::ASMap(list)) => list,
        _ => seq![AmendmentSenate::default_view()],
    }
}

/// The documents of a roll call as a list.
pub fn document_list(o: &Option<ResponseSpecific>) -> (out: Vec<DocumentSenate>)
    ensures
        out.deep_view() == documents_of(o.deep_view()),
{
    let mut out: Vec<DocumentSenate> = Vec::new();
    match o {
        Some(ResponseSpecific::DocumentSenate(d)) => {
            out.push(d.duplicate());
            assert(out.deep_view() =~= seq![d.deep_view()]);
        },
        Some(ResponseSpecific::DSMap(list)) => {
            return DocumentSenate::duplicate_list(list);
        },
        _ => {
            out.push(DocumentSenate::default());
            assert(out.deep_view() =~= seq![DocumentSenate::default_view()]);
        },
    }
    out
}

/// The amendments of a roll call as a list.
pub fn amendment_list(o: &Option<ResponseSpecific>) -> (out: Vec<AmendmentSenate>)
    ensures
        out.deep_view() == amendments_of(o.deep_view()),
{
    let mut out: Vec<AmendmentSenate> = Vec::new();
    match o {
        Some(ResponseSpecific::AmendmentSenate(a)) => {
            out.push(a.duplicate());
            assert(out.deep_view() =~= seq![a.deep_view()]);
        },
        Some(ResponseSpecific::ASMap(list)) => {
            return AmendmentSenate::duplicate_list(list);
        },
        _ => {
            out.push(AmendmentSenate::default());
            assert(out.deep_view() =~= seq![AmendmentSenate::default_view()]);
        },
    }
    out
}

/// How a senator voted, with the pairing: from a vote that is published
/// with its pairing, both texts, each `null` where it is missing; from a
/// bare text, the text and no pairing; from anything else, nothing.
pub open spec fn cast_of(o: Option<ResponseSpecificView>) -> VoteCastMapView {
    match o {
        Some(ResponseSpecificView::VoteCastMap(c)) => VoteCastMapView {
            name: Some(text_or(c.name, "null"@)),
            paired_with: Some(text_or(c.paired_with, "null"@)),
        },
        Some(ResponseSpecificView::String(s)) => VoteCastMapView {
            name: Some(s),
            paired_with: Some("null"@),
        },
        _ => VoteCastMapView { name: Some("null"@), paired_with: Some("null"@) },
    }
}

/// How a senator voted, with the pairing.
pub fn vote_cast_of(o: &Option<ResponseSpecific>) -> (out: VoteCastMap)
    ensures
        out.deep_view() == cast_of(o.deep_view()),
{
    match o {
        Some(ResponseSpecific::VoteCastMap(c)) => VoteCastMap {
            name: Some(text_or_else(&c.name, "null")),
            paired_with: Some(text_or_else(&c.paired_with, "null")),
        },
        Some(ResponseSpecific::String(s)) => VoteCastMap {
            name: Some(s.clone()),
            paired_with: Some(String::from_str("null")),
        },
        _ => VoteCastMap {
            name: Some(String::from_str("null")),
            paired_with: Some(String::from_str("null")),
        },
    }
}

/// The identifier generated for a senator: from the last name, the party
/// and the state, each `null` where it is missing.
pub open spec fn generated_id(m: MemberSenateView) -> Seq<char> {
    identity_hash(
        text_or(m.last_name, "null"@),
        text_or(m.party, "null"@),
        text_or(m.state, "null"@),
    )
}

/// A senator with every field filled: names, party and state `null` where
/// they are missing, the identifier of the Senate `None` where it is
/// missing, the vote with its pairing, and the generated identifier filed
/// under `generated_id`.
pub open spec fn senate_member(m: MemberSenateView) -> MemberSenateView {
    MemberSenateView {
        member_full: Some(text_or(m.member_full, "null"@)),
        last_name: Some(text_or(m.last_name, "null"@)),
        first_name: Some(text_or(m.first_name, "null"@)),
        party: Some(text_or(m.party, "null"@)),
        state: Some(text_or(m.state, "null"@)),
        vote_cast: Some(ResponseSpecificView::VoteCastMap(cast_of(m.vote_cast))),
        lis_member_id: Some(text_or(m.lis_member_id, "None"@)),
        extra: Some(
            seq![
                JsonMemberView { name: "generated_id"@, value: JsonView::Text(generated_id(m)) },
            ],
        ),
    }
}

/// A senator as a legislator of either chamber.
pub open spec fn general_member(m: MemberSenateView) -> CongressionalMemberView {
    CongressionalMemberView {
        last_name: text_or(m.last_name, "null"@),
        party: text_or(m.party, "null"@),
        state: text_or(m.state, "null"@),
        generated_id: generated_id(m),
    }
}

/// Fills every field of a senator and generates the identifier.
pub fn normalize_member(member: &MemberSenate) -> (r: (MemberSenate, CongressionalMember))
    ensures
        r.0.deep_view() == senate_member(member.deep_view()),
        r.1.deep_view() == general_member(member.deep_view()),
{
    let last_name = text_or_else(&member.last_name, "null");
    let party = text_or_else(&member.party, "null");
    let state = text_or_else(&member.state, "null");
    let hash = member_hash(last_name.as_str(), party.as_str(), state.as_str());
    let mut extra: Vec<JsonMember> = Vec::new();
    extra.push(
        JsonMember { name: String::from_str("generated_id"), value: JsonValue::Text(hash.clone()) },
    );
    assert(extra.deep_view() =~= seq![
        JsonMemberView { name: "generated_id"@, value: JsonView::Text(hash@) },
    ]);
    let senator = MemberSenate {
        member_full: Some(text_or_else(&member.member_full, "null")),
        last_name: Some(last_name.clone()),
        first_name: Some(text_or_else(&member.first_name, "null")),
        party: Some(party.clone()),
        state: Some(state.clone()),
        vote_cast: Some(ResponseSpecific::VoteCastMap(vote_cast_of(&member.vote_cast))),
        lis_member_id: Some(text_or_else(&member.lis_member_id, "None")),
        extra: Some(extra),
    };
    let general = CongressionalMember { last_name, party, state, generated_id: hash };
    (senator, general)
}

/// The senators of a roll call, each with every field filled.
pub open spec fn senate_members(list: Seq<MemberSenateView>) -> Seq<MemberSenateView> {
    Seq::new(list.len(), |i: int| senate_member(list[i]))
}

/// The senators of a roll call, each as a legislator of either chamber.
pub open spec fn general_members(list: Seq<MemberSenateView>) -> Seq<CongressionalMemberView> {
    Seq::new(list.len(), |i: int| general_member(list[i]))
}

/// The placeholder that stands for the senators of a roll call whose list
/// of members is there but empty of a `member` field.
pub open spec fn placeholder_member() -> CongressionalMemberView {
    CongressionalMemberView {
        last_name: "null"@,
        party: "null"@,
        state: "null"@,
        generated_id: "null"@,
    }
}

/// The senators of a roll call in the form of the Senate: none where the
/// roll call names no members.
pub open spec fn members_as_is(o: Option<MembersSenateView>) -> Seq<MemberSenateView> {
    match o {
        Some(members) => match members.member {
            Some(list) => senate_members(list),
            None => Seq::empty(),
        },
        None => Seq::empty(),
    }
}

/// The senators of a roll call in the general form: the placeholder alone
/// where the members are there without a list, none where the roll call
/// names no members.
pub open spec fn members_to_gen(o: Option<MembersSenateView>) -> Seq<CongressionalMemberView> {
    match o {
        Some(members) => match members.member {
            Some(list) => general_members(list),
            None => seq![placeholder_member()],
        },
        None => Seq::empty(),
    }
}

/// The senators of a roll call, in both forms.
pub fn member_lists(o: &Option<MembersSenate>) -> (r: (Vec<MemberSenate>, Vec<CongressionalMember>))
    ensures
        r.0.deep_view() == members_as_is(o.deep_view()),
        r.1.deep_view() == members_to_gen(o.deep_view()),
{
    let mut senators: Vec<MemberSenate> = Vec::new();
    let mut general: Vec<CongressionalMember> = Vec::new();
    assert(senators.deep_view() =~= Seq::empty());
    assert(general.deep_view() =~= Seq::empty());
    match o {
        Some(members) => match &members.member {
            Some(list) => {
                let ghost want = list.deep_view();
                let mut i: usize = 0;
                while i < list.len()
                    invariant
                        i <= list@.len(),
                        want == list.deep_view(),
                        senators.deep_view() == senate_members(want.take(i as int)),
                        general.deep_view() == general_members(want.take(i as int)),
                    decreases list@.len() - i,
                {
                    let ghost s_before = senators.deep_view();
                    let ghost g_before = general.deep_view();
                    let (senator, member) = normalize_member(&list[i]);
                    let ghost s_added = senator.deep_view();
                    let ghost g_added = member.deep_view();
                    senators.push(senator);
                    general.push(member);
                    proof {
                        assert(want[i as int] == list@[i as int].deep_view());
                        assert(senators.deep_view() =~= s_before.push(s_added));
                        assert(general.deep_view() =~= g_before.push(g_added));
                        assert(senate_members(want.take(i + 1)) =~= senate_members(
                            want.take(i as int),
                        ).push(senate_member(want[i as int])));
                        assert(general_members(want.take(i + 1)) =~= general_members(
                            want.take(i as int),
                        ).push(general_member(want[i as int])));
                    }
                    i += 1;
                }
                assert(want.take(i as int) == want);
            },
            None => {
                general.push(
                    CongressionalMember {
                        last_name: String::from_str("null"),
                        party: String::from_str("null"),
                        state: String::from_str("null"),
                        generated_id: String::from_str("null"),
                    },
                );
                assert(general.deep_view() =~= seq![placeholder_member()]);
            },
        },
        None => {},
    }
    (senators, general)
}

/// A Senate roll call, normalized. Congress, session and roll call number
/// are those that the document states, each taken from the path where the
/// document states none that is a number of its width. The hash is that of
/// the document as it was read.
pub open spec fn senate_info(
    congress: int,
    session: int,
    rollcall: int,
    chamber: Seq<char>,
    year: int,
    vote: RollCallVoteSenateView,
    document: JsonView,
) -> SenateInfoView {
    SenateInfoView {
        congress_number: number_or(vote.congress, u16::MAX as nat, congress),
        session_number: number_or(vote.session, u8::MAX as nat, session),
        rollcall_number: match vote.vote_number {
            Some(text) => number_or(text, u32::MAX as nat, rollcall),
            None => rollcall,
        },
        chamber,
        year,
        vote_hash: text_hash(json_text(document)),
        vote_date: text_or_null(vote.vote_date),
        vote_modify_date: text_or(vote.modify_date, "null"@),
        vote_question: text_or_null(vote.question),
        vote_question_text: text_or_null(vote.vote_question_text),
        vote_document_text: text_or_null(vote.vote_document_text),
        vote_result: text_or(vote.vote_result, "null"@),
        vote_title: text_or(vote.vote_title, "null"@),
        majority_requirement: text_or(vote.majority_requirement, "null"@),
        documents: documents_of(vote.document),
        amendments: amendments_of(vote.amendment),
        yay: match vote.count {
            Some(count) => count_of_text(count.yeas),
            None => 0,
        },
        nay: match vote.count {
            Some(count) => count_of_text(count.nays),
            None => 0,
        },
        present: match vote.count {
            Some(count) => count_of_response(count.present),
            None => 0,
        },
        absent: match vote.count {
            Some(count) => count_of_response(count.absent),
            None => 0,
        },
        tie_breaker_name: match vote.tie_breaker {
            Some(tie) => text_or_null(tie.by_whom),
            None => "null"@,
        },
        tie_breaker_paired: match vote.tie_breaker {
            Some(tie) => text_or_null(tie.tie_breaker_vote),
            None => "null"@,
        },
        members_as_is: members_as_is(vote.members),
        members_to_gen: members_to_gen(vote.members),
    }
}

/// Normalizes a Senate roll call. `info_pulled` holds what the path of the
/// file says: congress, session, roll call number, chamber and year.
/// `document` is the roll call as it was read, which the hash is taken of.
pub fn get_senate_vote(
    info_pulled: &(u16, u8, u32, String, u16),
    vote: &RollCallVoteSenate,
    document: &JsonValue,
) -> (info: SenateInfo)
    ensures
        info.deep_view() == senate_info(
            info_pulled.0 as int,
            info_pulled.1 as int,
            info_pulled.2 as int,
            info_pulled.3@,
            info_pulled.4 as int,
            vote.deep_view(),
            document.deep_view(),
        ),
{
    let congress_number = match parse_bounded(vote.congress.as_str(), 0xffff) {
        Some(n) => n as u16,
        None => info_pulled.0,
    };
    let session_number = match parse_bounded(vote.session.as_str(), 0xff) {
        Some(n) => n as u8,
        None => info_pulled.1,
    };
    let rollcall_number = match &vote.vote_number {
        Some(text) => match parse_bounded(text.as_str(), 0xffff_ffff) {
            Some(n) => n as u32,
            None => info_pulled.2,
        },
        None => info_pulled.2,
    };
    let text = write_compact(document);
    let vote_hash = generate_hash(text.as_str());
    let (yay, nay, present, absent) = match &vote.count {
        Some(count) => (
            text_count(&count.yeas),
            text_count(&count.nays),
            response_count(&count.present),
            response_count(&count.absent),
        ),
        None => (0, 0, 0, 0),
    };
    let (tie_breaker_name, tie_breaker_paired) = match &vote.tie_breaker {
        Some(tie) => (response_text(&tie.by_whom), response_text(&tie.tie_breaker_vote)),
        None => (String::from_str("null"), String::from_str("null")),
    };
    let (members_as_is, members_to_gen) = member_lists(&vote.members);
    SenateInfo {
        congress_number,
        session_number,
        rollcall_number,
        chamber: info_pulled.3.clone(),
        year: info_pulled.4,
        vote_hash,
        vote_date: response_text(&vote.vote_date),
        vote_modify_date: text_or_else(&vote.modify_date, "null"),
        vote_question: response_text(&vote.question),
        vote_question_text: response_text(&vote.vote_question_text),
        vote_document_text: response_text(&vote.vote_document_text),
        vote_result: text_or_else(&vote.vote_result, "null"),
        vote_title: text_or_else(&vote.vote_title, "null"),
        majority_requirement: text_or_else(&vote.majority_requirement, "null"),
        documents: document_list(&vote.document),
        amendments: amendment_list(&vote.amendment),
        yay,
        nay,
        present,
        absent,
        tie_breaker_name,
        tie_breaker_paired,
        members_as_is,
        members_to_gen,
    }
}

} // verus!
