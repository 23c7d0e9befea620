//! From a House roll call as it is published to the normalized record that
//! is stored: every missing text replaced by the sentinel `null`, and the
//! tables of totals each with at least one row.
use crate::fields::{text_or, text_or_else};
use crate::house::{
    ActionTimeHouseView, RollCallVoteHouse, RollCallVoteHouseView, TotalsByCandidateHouse,
    TotalsByCandidateHouseView, TotalsByPartyHouse, TotalsByPartyHouseView, TotalsByVoteHouse,
    TotalsByVoteHouseView, VoteTotalsHouseView,
};
use crate::sql_senate::{response_text, text_or_null};
use vstd::prelude::*;
use vstd::string::*;

verus! {

/// A House roll call, normalized.
#[derive(Debug)]
pub struct HouseInfo {
    pub congress_number: u16,
    pub session_number: u8,
    pub rollcall_number: u32,
    pub chamber: String,
    pub year: u16,
    pub majority: String,
    pub committee: String,
    pub legis_num: String,
    pub vote_question: String,
    pub vote_type: String,
    pub vote_result: String,
    pub action_date: String,
    pub action_time: String,
    pub action_time_etz: String,
    pub vote_desc: String,
    pub totals_by_candidate: Vec<TotalsByCandidateHouse>,
    pub totals_by_party: Vec<TotalsByPartyHouse>,
    pub totals_by_vote: TotalsByVoteHouse,
}

/// The mathematical model of a `HouseInfo`.
pub struct HouseInfoView {
    pub congress_number: int,
    pub session_number: int,
    pub rollcall_number: int,
    pub chamber: Seq<char>,
    pub year: int,
    pub majority: Seq<char>,
    pub committee: Seq<char>,
    pub legis_num: Seq<char>,
    pub vote_question: Seq<char>,
    pub vote_type: Seq<char>,
    pub vote_result: Seq<char>,
    pub action_date: Seq<char>,
    pub action_time: Seq<char>,
    pub action_time_etz: Seq<char>,
    pub vote_desc: Seq<char>,
    pub totals_by_candidate: Seq<TotalsByCandidateHouseView>,
    pub totals_by_party: Seq<TotalsByPartyHouseView>,
    pub totals_by_vote: TotalsByVoteHouseView,
}

impl DeepView for HouseInfo {
    type V = HouseInfoView;

    open spec fn deep_view(&self) -> HouseInfoView {
        HouseInfoView {
            congress_number: self.congress_number as int,
            session_number: self.session_number as int,
            rollcall_number: self.rollcall_number as int,
            chamber: self.chamber@,
            year: self.year as int,
            majority: self.majority@,
            committee: self.committee@,
            legis_num: self.legis_num@,
            vote_question: self.vote_question@,
            vote_type: self.vote_type@,
            vote_result: self.vote_result@,
            action_date: self.action_date@,
            action_time: self.action_time@,
            action_time_etz: self.action_time_etz@,
            vote_desc: self.vote_desc@,
            totals_by_candidate: self.totals_by_candidate.deep_view(),
            totals_by_party: self.totals_by_party.deep_view(),
            totals_by_vote: self.totals_by_vote.deep_view(),
        }
    }
}

/// The totals by candidate as a table: one empty row where there is none.
pub open spec fn candidate_rows(totals: Option<VoteTotalsHouseView>) -> Seq<
    TotalsByCandidateHouseView,
> {
    match totals {
        Some(VoteTotalsHouseView { totals_by_candidate: Some(rows), .. }) => rows,
        _ => seq![TotalsByCandidateHouse::default_view()],
    }
}

/// The totals by party as a table: one empty row where there is none.
pub open spec fn party_rows(totals: Option<VoteTotalsHouseView>) -> Seq<TotalsByPartyHouseView> {
    match totals {
        Some(VoteTotalsHouseView { totals_by_party: Some(rows), .. }) => rows,
        _ => seq![TotalsByPartyHouse::default_view()],
    }
}

/// The totals of the whole House: an empty row where there is none.
pub open spec fn vote_row(totals: Option<VoteTotalsHouseView>) -> TotalsByVoteHouseView {
    match totals {
        Some(VoteTotalsHouseView { totals_by_vote: Some(row), .. }) => row,
        _ => TotalsByVoteHouse::default_view(),
    }
}

/// The time of the action as it is printed, `null` where it is missing.
pub open spec fn action_time_text(time: Option<ActionTimeHouseView>) -> Seq<char> {
    match time {
        Some(t) => text_or(t.content, "null"@),
        None => "null"@,
    }
}

/// The time of the action in Eastern time, `null` where it is missing.
pub open spec fn action_time_etz_text(time: Option<ActionTimeHouseView>) -> Seq<char> {
    match time {
        Some(t) => text_or(t.time_etz, "null"@),
        None => "null"@,
    }
}

/// A House roll call, normalized: the roll call as the path names it, and
/// the description of the roll call with `null` for every field that is
/// missing or no text.
pub open spec fn house_info(
    congress: int,
    session: int,
    rollcall: int,
    chamber: Seq<char>,
    year: int,
    vote: RollCallVoteHouseView,
) -> HouseInfoView {
    let meta = vote.vote_metadata;
    HouseInfoView {
        congress_number: congress,
        session_number: session,
        rollcall_number: rollcall,
        chamber,
        year,
        majority: text_or(meta.majority, "null"@),
        committee: text_or(meta.committee, "null"@),
        legis_num: text_or(meta.legis_num, "null"@),
        vote_question: text_or_null(meta.vote_question),
        vote_type: text_or_null(meta.vote_type),
        vote_result: text_or_null(meta.vote_result),
        action_date: text_or_null(meta.action_date),
        action_time: action_time_text(meta.action_time),
        action_time_etz: action_time_etz_text(meta.action_time),
        vote_desc: text_or_null(meta.vote_desc),
        totals_by_candidate: candidate_rows(meta.vote_totals),
        totals_by_party: party_rows(meta.vote_totals),
        totals_by_vote: vote_row(meta.vote_totals),
    }
}

/// Normalizes a House roll call. `info_pulled` holds what the path of the
/// file says: congress, session, roll call number, chamber and year.
pub fn get_house_vote(info_pulled: &(u16, u8, u32, String, u16), vote: &RollCallVoteHouse) -> (info:
    HouseInfo)
    ensures
        info.deep_view() == house_info(
            info_pulled.0 as int,
            info_pulled.1 as int,
            info_pulled.2 as int,
            info_pulled.3@,
            info_pulled.4 as int,
            vote.deep_view(),
        ),
{
    let meta = &vote.vote_metadata;
    let (action_time, action_time_etz) = match &meta.action_time {
        Some(time) => (text_or_else(&time.content, "null"), text_or_else(&time.time_etz, "null")),
        None => (String::from_str("null"), String::from_str("null")),
    };
    let mut totals_by_candidate: Vec<TotalsByCandidateHouse> = Vec::new();
    let mut totals_by_party: Vec<TotalsByPartyHouse> = Vec::new();
    let mut totals_by_vote = TotalsByVoteHouse::default();
    let mut has_candidates = false;
    let mut has_parties = false;
    match &meta.vote_totals {
        Some(totals) => {
            match &totals.totals_by_candidate {
                Some(rows) => {
                    totals_by_candidate = TotalsByCandidateHouse::duplicate_list(rows);
                    has_candidates = true;
                },
                None => {},
            }
            match &totals.totals_by_party {
                Some(rows) => {
                    totals_by_party = TotalsByPartyHouse::duplicate_list(rows);
                    has_parties = true;
                },
                None => {},
            }
            match &totals.totals_by_vote {
                Some(row) => {
                    totals_by_vote = row.duplicate();
                },
                None => {},
            }
        },
        None => {},
    }
    if !has_candidates {
        totals_by_candidate.push(TotalsByCandidateHouse::default());
        assert(totals_by_candidate.deep_view() =~= seq![TotalsByCandidateHouse::default_view()]);
    }
    if !has_parties {
        totals_by_party.push(TotalsByPartyHouse::default());
        assert(totals_by_party.deep_view() =~= seq![TotalsByPartyHouse::default_view()]);
    }
    HouseInfo {
        congress_number: info_pulled.0,
        session_number: info_pulled.1,
        rollcall_number: info_pulled.2,
        chamber: info_pulled.3.clone(),
        year: info_pulled.4,
        majority: text_or_else(&meta.majority, "null"),
        committee: text_or_else(&meta.committee, "null"),
        legis_num: text_or_else(&meta.legis_num, "null"),
        vote_question: response_text(&meta.vote_question),
        vote_type: response_text(&meta.vote_type),
        vote_result: response_text(&meta.vote_result),
        action_date: response_text(&meta.action_date),
        action_time,
        action_time_etz,
        vote_desc: response_text(&meta.vote_desc),
        totals_by_candidate,
        totals_by_party,
        totals_by_vote,
    }
}

} // verus!
