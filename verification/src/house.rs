//! Roll calls as the House publishes them.
//!
//! Each record comes with its mathematical model, with the rule that says
//! which JSON values hold such a record, and with the decoder that follows
//! the rule.
use crate::fields::{
    dup_opt_text, opt_text, opt_text_field, optional, optional_field, req_response,
    req_response_field, req_text, req_text_field,
};
use crate::json::{
    find_member, lemma_json_view, member, views_of, JsonMemberView, JsonValue, JsonView,
};
use crate::responses::{Response, ResponseView};
use vstd::prelude::*;

verus! {

/// When the House acted: the time as it is printed, and the same time in Eastern time.
#[derive(Debug)]
pub struct ActionTimeHouse {
    pub content: Option<String>,
    pub time_etz: Option<String>,
}

/// The mathematical model of a `ActionTimeHouse`.
pub struct ActionTimeHouseView {
    pub content: Option<Seq<char>>,
    pub time_etz: Option<Seq<char>>,
}

impl DeepView for ActionTimeHouse {
    type V = ActionTimeHouseView;

    open spec fn deep_view(&self) -> ActionTimeHouseView {
        ActionTimeHouseView {
            content: self.content.deep_view(),
            time_etz: self.time_etz.deep_view(),
        }
    }
}

impl Default for ActionTimeHouse {
    fn default() -> (r: Self)
        ensures
            r.deep_view() == ActionTimeHouse::default_view(),
    {
        ActionTimeHouse {
            content: None,
            time_etz: None,
        }
    }
}

/// The `ActionTimeHouse` that a JSON value holds: an object whose members have the
/// shapes that the fields ask for. Members with other names are passed over.
pub open spec fn decode_action_time_house(v: JsonView) -> Option<ActionTimeHouseView> {
    match v {
        JsonView::Object(m) => {
            let content = opt_text(m, "content"@);
            let time_etz = opt_text(m, "time-etz"@);
            if content is Some && time_etz is Some {
                Some(
                    ActionTimeHouseView {
                        content: content->0,
                        time_etz: time_etz->0,
                    },
                )
            } else {
                None
            }
        },
        _ => None,
    }
}

/// A `ActionTimeHouse` that may be missing.
pub open spec fn opt_action_time_house(
    m: Seq<JsonMemberView>,
    key: Seq<char>,
) -> Option<Option<ActionTimeHouseView>> {
    match optional(m, key) {
        None => Some(None),
        Some(x) => match decode_action_time_house(x) {
            Some(y) => Some(Some(y)),
            None => None,
        },
    }
}

impl ActionTimeHouse {
    /// The model of the value that `default` gives.
    pub open spec fn default_view() -> ActionTimeHouseView {
        ActionTimeHouseView {
            content: None,
            time_etz: None,
        }
    }

    /// Decodes a JSON value.
    pub fn from_json(v: &JsonValue) -> (r: Option<ActionTimeHouse>)
        ensures
            r.deep_view() == decode_action_time_house(v.deep_view()),
    {
        proof {
            lemma_json_view(*v);
        }
        match v {
            JsonValue::Object(members) => {
                let content = match opt_text_field(members, "content") {
                    Some(x) => x,
                    None => {
                        return None;
                    },
                };
                let time_etz = match opt_text_field(members, "time-etz") {
                    Some(x) => x,
                    None => {
                        return None;
                    },
                };
                Some(ActionTimeHouse {
                    content,
                    time_etz,
                })
            },
            _ => None,
        }
    }

    /// A copy of this value.
    pub fn duplicate(&self) -> (r: ActionTimeHouse)
        ensures
            r.deep_view() == self.deep_view(),
    {
        ActionTimeHouse {
            content: dup_opt_text(&self.content),
            time_etz: dup_opt_text(&self.time_etz),
        }
    }
}

/// The votes that one candidate received in an election by the House.
#[derive(Debug)]
pub struct TotalsByCandidateHouse {
    pub candidate: Option<String>,
    pub candidate_total: Option<String>,
}

/// The mathematical model of a `TotalsByCandidateHouse`.
pub struct TotalsByCandidateHouseView {
    pub candidate: Option<Seq<char>>,
    pub candidate_total: Option<Seq<char>>,
}

impl DeepView for TotalsByCandidateHouse {
    type V = TotalsByCandidateHouseView;

    open spec fn deep_view(&self) -> TotalsByCandidateHouseView {
        TotalsByCandidateHouseView {
            candidate: self.candidate.deep_view(),
            candidate_total: self.candidate_total.deep_view(),
        }
    }
}

impl Default for TotalsByCandidateHouse {
    fn default() -> (r: Self)
        ensures
            r.deep_view() == TotalsByCandidateHouse::default_view(),
    {
        TotalsByCandidateHouse {
            candidate: None,
            candidate_total: None,
        }
    }
}

/// The `TotalsByCandidateHouse` that a JSON value holds: an object whose members have the
/// shapes that the fields ask for. Members with other names are passed over.
pub open spec fn decode_totals_by_candidate_house(
    v: JsonView,
) -> Option<TotalsByCandidateHouseView> {
    match v {
        JsonView::Object(m) => {
            let candidate = opt_text(m, "candidate"@);
            let candidate_total = opt_text(m, "candidate-total"@);
            if candidate is Some && candidate_total is Some {
                Some(
                    TotalsByCandidateHouseView {
                        candidate: candidate->0,
                        candidate_total: candidate_total->0,
                    },
                )
            } else {
                None
            }
        },
        _ => None,
    }
}

/// The items of an array, each a `TotalsByCandidateHouse`; `None` if one of them is not.
pub open spec fn decode_totals_by_candidate_house_list(
    items: Seq<JsonView>,
) -> Option<Seq<TotalsByCandidateHouseView>>
    decreases items.len(),
{
    if items.len() == 0 {
        Some(Seq::empty())
    } else {
        match (
            decode_totals_by_candidate_house_list(items.drop_last()),
            decode_totals_by_candidate_house(items.last()),
        ) {
            (Some(head), Some(x)) => Some(head.push(x)),
            _ => None,
        }
    }
}

/// A list of `TotalsByCandidateHouse` that may be missing.
pub open spec fn opt_totals_by_candidate_house_list(
    m: Seq<JsonMemberView>,
    key: Seq<char>,
) -> Option<Option<Seq<TotalsByCandidateHouseView>>> {
    match optional(m, key) {
        None => Some(None),
        Some(JsonView::Array(items)) => match decode_totals_by_candidate_house_list(items) {
            Some(y) => Some(Some(y)),
            None => None,
        },
        Some(_) => None,
    }
}

/// A list whose beginning holds something else than a `TotalsByCandidateHouse` is no list of them.
pub proof fn lemma_decode_totals_by_candidate_house_list_prefix(items: Seq<JsonView>, k: int)
    requires
        0 <= k <= items.len(),
        decode_totals_by_candidate_house_list(items.take(k)) is None,
    ensures
        decode_totals_by_candidate_house_list(items) is None,
    decreases items.len() - k,
{
    if k < items.len() {
        assert(items.take(k + 1).drop_last() == items.take(k));
        lemma_decode_totals_by_candidate_house_list_prefix(items, k + 1);
    } else {
        assert(items.take(k) == items);
    }
}

impl TotalsByCandidateHouse {
    /// The model of the value that `default` gives.
    pub open spec fn default_view() -> TotalsByCandidateHouseView {
        TotalsByCandidateHouseView {
            candidate: None,
            candidate_total: None,
        }
    }

    /// Decodes a JSON value.
    pub fn from_json(v: &JsonValue) -> (r: Option<TotalsByCandidateHouse>)
        ensures
            r.deep_view() == decode_totals_by_candidate_house(v.deep_view()),
    {
        proof {
            lemma_json_view(*v);
        }
        match v {
            JsonValue::Object(members) => {
                let candidate = match opt_text_field(members, "candidate") {
                    Some(x) => x,
                    None => {
                        return None;
                    },
                };
                let candidate_total = match opt_text_field(members, "candidate-total") {
                    Some(x) => x,
                    None => {
                        return None;
                    },
                };
                Some(TotalsByCandidateHouse {
                    candidate,
                    candidate_total,
                })
            },
            _ => None,
        }
    }

    /// A copy of this value.
    pub fn duplicate(&self) -> (r: TotalsByCandidateHouse)
        ensures
            r.deep_view() == self.deep_view(),
    {
        TotalsByCandidateHouse {
            candidate: dup_opt_text(&self.candidate),
            candidate_total: dup_opt_text(&self.candidate_total),
        }
    }

    /// Decodes the items of an array.
    pub fn list_from_json(items: &Vec<JsonValue>) -> (r: Option<Vec<TotalsByCandidateHouse>>)
        ensures
            r.deep_view() == decode_totals_by_candidate_house_list(views_of(items@)),
    {
        let ghost want = views_of(items@);
        let mut out: Vec<TotalsByCandidateHouse> = Vec::new();
        let mut i: usize = 0;
        assert(want.take(0) == Seq::<JsonView>::empty());
        assert(out.deep_view() =~= Seq::<TotalsByCandidateHouseView>::empty());
        while i < items.len()
            invariant
                i <= items@.len(),
                want == views_of(items@),
                decode_totals_by_candidate_house_list(want.take(i as int)) == Some(out.deep_view()),
            decreases items@.len() - i,
        {
            proof {
                assert(want[i as int] == items@[i as int].deep_view());
                assert(want.take(i + 1).drop_last() == want.take(i as int));
                assert(want.take(i + 1).last() == want[i as int]);
            }
            match TotalsByCandidateHouse::from_json(&items[i]) {
                Some(x) => {
                    let ghost before = out.deep_view();
                    let ghost added = x.deep_view();
                    out.push(x);
                    assert(out.deep_view() =~= before.push(added));
                },
                None => {
                    proof {
                        lemma_decode_totals_by_candidate_house_list_prefix(want, i + 1);
                    }
                    return None;
                },
            }
            i += 1;
        }
        assert(want.take(i as int) == want);
        Some(out)
    }

    /// A copy of a list.
    pub fn duplicate_list(items: &Vec<TotalsByCandidateHouse>) -> (r: Vec<TotalsByCandidateHouse>)
        ensures
            r.deep_view() == items.deep_view(),
    {
        let mut out: Vec<TotalsByCandidateHouse> = Vec::new();
        let mut i: usize = 0;
        while i < items.len()
            invariant
                i <= items@.len(),
                out@.len() == i,
                forall|j: int| 0 <= j < i ==>
                    (#[trigger] out@[j]).deep_view() == items@[j].deep_view(),
            decreases items@.len() - i,
        {
            out.push(items[i].duplicate());
            i += 1;
        }
        assert(out.deep_view() =~= items.deep_view());
        out
    }
}

/// The column headings of the table of totals by party.
#[derive(Debug)]
pub struct TotalsByPartyHeaderHouse {
    pub party_header: Option<String>,
    pub yea_header: Option<String>,
    pub nay_header: Option<String>,
    pub present_header: Option<String>,
    pub not_voting_header: Option<String>,
}

/// The mathematical model of a `TotalsByPartyHeaderHouse`.
pub struct TotalsByPartyHeaderHouseView {
    pub party_header: Option<Seq<char>>,
    pub yea_header: Option<Seq<char>>,
    pub nay_header: Option<Seq<char>>,
    pub present_header: Option<Seq<char>>,
    pub not_voting_header: Option<Seq<char>>,
}

impl DeepView for TotalsByPartyHeaderHouse {
    type V = TotalsByPartyHeaderHouseView;

    open spec fn deep_view(&self) -> TotalsByPartyHeaderHouseView {
        TotalsByPartyHeaderHouseView {
            party_header: self.party_header.deep_view(),
            yea_header: self.yea_header.deep_view(),
            nay_header: self.nay_header.deep_view(),
            present_header: self.present_header.deep_view(),
            not_voting_header: self.not_voting_header.deep_view(),
        }
    }
}

impl Default for TotalsByPartyHeaderHouse {
    fn default() -> (r: Self)
        ensures
            r.deep_view() == TotalsByPartyHeaderHouse::default_view(),
    {
        TotalsByPartyHeaderHouse {
            party_header: None,
            yea_header: None,
            nay_header: None,
            present_header: None,
            not_voting_header: None,
        }
    }
}

/// The `TotalsByPartyHeaderHouse` that a JSON value holds: an object whose members have the
/// shapes that the fields ask for. Members with other names are passed over.
pub open spec fn decode_totals_by_party_header_house(
    v: JsonView,
) -> Option<TotalsByPartyHeaderHouseView> {
    match v {
        JsonView::Object(m) => {
            let party_header = opt_text(m, "party-header"@);
            let yea_header = opt_text(m, "yea-header"@);
            let nay_header = opt_text(m, "nay-header"@);
            let present_header = opt_text(m, "present-header"@);
            let not_voting_header = opt_text(m, "not-voting-header"@);
            if party_header is Some && yea_header is Some && nay_header is Some
                && present_header is Some && not_voting_header is Some {
                Some(
                    TotalsByPartyHeaderHouseView {
                        party_header: party_header->0,
                        yea_header: yea_header->0,
                        nay_header: nay_header->0,
                        present_header: present_header->0,
                        not_voting_header: not_voting_header->0,
                    },
                )
            } else {
                None
            }
        },
        _ => None,
    }
}

/// A `TotalsByPartyHeaderHouse` that may be missing.
pub open spec fn opt_totals_by_party_header_house(
    m: Seq<JsonMemberView>,
    key: Seq<char>,
) -> Option<Option<TotalsByPartyHeaderHouseView>> {
    match optional(m, key) {
        None => Some(None),
        Some(x) => match decode_totals_by_party_header_house(x) {
            Some(y) => Some(Some(y)),
            None => None,
        },
    }
}

impl TotalsByPartyHeaderHouse {
    /// The model of the value that `default` gives.
    pub open spec fn default_view() -> TotalsByPartyHeaderHouseView {
        TotalsByPartyHeaderHouseView {
            party_header: None,
            yea_header: None,
            nay_header: None,
            present_header: None,
            not_voting_header: None,
        }
    }

    /// Decodes a JSON value.
    pub fn from_json(v: &JsonValue) -> (r: Option<TotalsByPartyHeaderHouse>)
        ensures
            r.deep_view() == decode_totals_by_party_header_house(v.deep_view()),
    {
        proof {
            lemma_json_view(*v);
        }
        match v {
            JsonValue::Object(members) => {
                let party_header = match opt_text_field(members, "party-header") {
                    Some(x) => x,
                    None => {
                        return None;
                    },
                };
                let yea_header = match opt_text_field(members, "yea-header") {
                    Some(x) => x,
                    None => {
                        return None;
                    },
                };
                let nay_header = match opt_text_field(members, "nay-header") {
                    Some(x) => x,
                    None => {
                        return None;
                    },
                };
                let present_header = match opt_text_field(members, "present-header") {
                    Some(x) => x,
                    None => {
                        return None;
                    },
                };
                let not_voting_header = match opt_text_field(members, "not-voting-header") {
                    Some(x) => x,
                    None => {
                        return None;
                    },
                };
                Some(TotalsByPartyHeaderHouse {
                    party_header,
                    yea_header,
                    nay_header,
                    present_header,
                    not_voting_header,
                })
            },
            _ => None,
        }
    }

    /// A copy of this value.
    pub fn duplicate(&self) -> (r: TotalsByPartyHeaderHouse)
        ensures
            r.deep_view() == self.deep_view(),
    {
        TotalsByPartyHeaderHouse {
            party_header: dup_opt_text(&self.party_header),
            yea_header: dup_opt_text(&self.yea_header),
            nay_header: dup_opt_text(&self.nay_header),
            present_header: dup_opt_text(&self.present_header),
            not_voting_header: dup_opt_text(&self.not_voting_header),
        }
    }
}

/// The totals of one party.
#[derive(Debug)]
pub struct TotalsByPartyHouse {
    pub party: Option<String>,
    pub yea_total: Option<String>,
    pub nay_total: Option<String>,
    pub present_total: Option<String>,
    pub not_voting_total: Option<String>,
}

/// The mathematical model of a `TotalsByPartyHouse`.
pub struct TotalsByPartyHouseView {
    pub party: Option<Seq<char>>,
    pub yea_total: Option<Seq<char>>,
    pub nay_total: Option<Seq<char>>,
    pub present_total: Option<Seq<char>>,
    pub not_voting_total: Option<Seq<char>>,
}

impl DeepView for TotalsByPartyHouse {
    type V = TotalsByPartyHouseView;

    open spec fn deep_view(&self) -> TotalsByPartyHouseView {
        TotalsByPartyHouseView {
            party: self.party.deep_view(),
            yea_total: self.yea_total.deep_view(),
            nay_total: self.nay_total.deep_view(),
            present_total: self.present_total.deep_view(),
            not_voting_total: self.not_voting_total.deep_view(),
        }
    }
}

impl Default for TotalsByPartyHouse {
    fn default() -> (r: Self)
        ensures
            r.deep_view() == TotalsByPartyHouse::default_view(),
    {
        TotalsByPartyHouse {
            party: None,
            yea_total: None,
            nay_total: None,
            present_total: None,
            not_voting_total: None,
        }
    }
}

/// The `TotalsByPartyHouse` that a JSON value holds: an object whose members have the
/// shapes that the fields ask for. Members with other names are passed over.
pub open spec fn decode_totals_by_party_house(v: JsonView) -> Option<TotalsByPartyHouseView> {
    match v {
        JsonView::Object(m) => {
            let party = opt_text(m, "party"@);
            let yea_total = opt_text(m, "yea-total"@);
            let nay_total = opt_text(m, "nay-total"@);
            let present_total = opt_text(m, "present-total"@);
            let not_voting_total = opt_text(m, "not-voting-total"@);
            if party is Some && yea_total is Some && nay_total is Some && present_total is Some
                && not_voting_total is Some {
                Some(
                    TotalsByPartyHouseView {
                        party: party->0,
                        yea_total: yea_total->0,
                        nay_total: nay_total->0,
                        present_total: present_total->0,
                        not_voting_total: not_voting_total->0,
                    },
                )
            } else {
                None
            }
        },
        _ => None,
    }
}

/// The items of an array, each a `TotalsByPartyHouse`; `None` if one of them is not.
pub open spec fn decode_totals_by_party_house_list(
    items: Seq<JsonView>,
) -> Option<Seq<TotalsByPartyHouseView>>
    decreases items.len(),
{
    if items.len() == 0 {
        Some(Seq::empty())
    } else {
        match (
            decode_totals_by_party_house_list(items.drop_last()),
            decode_totals_by_party_house(items.last()),
        ) {
            (Some(head), Some(x)) => Some(head.push(x)),
            _ => None,
        }
    }
}

/// A list of `TotalsByPartyHouse` that may be missing.
pub open spec fn opt_totals_by_party_house_list(
    m: Seq<JsonMemberView>,
    key: Seq<char>,
) -> Option<Option<Seq<TotalsByPartyHouseView>>> {
    match optional(m, key) {
        None => Some(None),
        Some(JsonView::Array(items)) => match decode_totals_by_party_house_list(items) {
            Some(y) => Some(Some(y)),
            None => None,
        },
        Some(_) => None,
    }
}

/// A list whose beginning holds something else than a `TotalsByPartyHouse` is no list of them.
pub proof fn lemma_decode_totals_by_party_house_list_prefix(items: Seq<JsonView>, k: int)
    requires
        0 <= k <= items.len(),
        decode_totals_by_party_house_list(items.take(k)) is None,
    ensures
        decode_totals_by_party_house_list(items) is None,
    decreases items.len() - k,
{
    if k < items.len() {
        assert(items.take(k + 1).drop_last() == items.take(k));
        lemma_decode_totals_by_party_house_list_prefix(items, k + 1);
    } else {
        assert(items.take(k) == items);
    }
}

impl TotalsByPartyHouse {
    /// The model of the value that `default` gives.
    pub open spec fn default_view() -> TotalsByPartyHouseView {
        TotalsByPartyHouseView {
            party: None,
            yea_total: None,
            nay_total: None,
            present_total: None,
            not_voting_total: None,
        }
    }

    /// Decodes a JSON value.
    pub fn from_json(v: &JsonValue) -> (r: Option<TotalsByPartyHouse>)
        ensures
            r.deep_view() == decode_totals_by_party_house(v.deep_view()),
    {
        proof {
            lemma_json_view(*v);
        }
        match v {
            JsonValue::Object(members) => {
                let party = match opt_text_field(members, "party") {
                    Some(x) => x,
                    None => {
                        return None;
                    },
                };
                let yea_total = match opt_text_field(members, "yea-total") {
                    Some(x) => x,
                    None => {
                        return None;
                    },
                };
                let nay_total = match opt_text_field(members, "nay-total") {
                    Some(x) => x,
                    None => {
                        return None;
                    },
                };
                let present_total = match opt_text_field(members, "present-total") {
                    Some(x) => x,
                    None => {
                        return None;
                    },
                };
                let not_voting_total = match opt_text_field(members, "not-voting-total") {
                    Some(x) => x,
                    None => {
                        return None;
                    },
                };
                Some(TotalsByPartyHouse {
                    party,
                    yea_total,
                    nay_total,
                    present_total,
                    not_voting_total,
                })
            },
            _ => None,
        }
    }

    /// A copy of this value.
    pub fn duplicate(&self) -> (r: TotalsByPartyHouse)
        ensures
            r.deep_view() == self.deep_view(),
    {
        TotalsByPartyHouse {
            party: dup_opt_text(&self.party),
            yea_total: dup_opt_text(&self.yea_total),
            nay_total: dup_opt_text(&self.nay_total),
            present_total: dup_opt_text(&self.present_total),
            not_voting_total: dup_opt_text(&self.not_voting_total),
        }
    }

    /// Decodes the items of an array.
    pub fn list_from_json(items: &Vec<JsonValue>) -> (r: Option<Vec<TotalsByPartyHouse>>)
        ensures
            r.deep_view() == decode_totals_by_party_house_list(views_of(items@)),
    {
        let ghost want = views_of(items@);
        let mut out: Vec<TotalsByPartyHouse> = Vec::new();
        let mut i: usize = 0;
        assert(want.take(0) == Seq::<JsonView>::empty());
        assert(out.deep_view() =~= Seq::<TotalsByPartyHouseView>::empty());
        while i < items.len()
            invariant
                i <= items@.len(),
                want == views_of(items@),
                decode_totals_by_party_house_list(want.take(i as int)) == Some(out.deep_view()),
            decreases items@.len() - i,
        {
            proof {
                assert(want[i as int] == items@[i as int].deep_view());
                assert(want.take(i + 1).drop_last() == want.take(i as int));
                assert(want.take(i + 1).last() == want[i as int]);
            }
            match TotalsByPartyHouse::from_json(&items[i]) {
                Some(x) => {
                    let ghost before = out.deep_view();
                    let ghost added = x.deep_view();
                    out.push(x);
                    assert(out.deep_view() =~= before.push(added));
                },
                None => {
                    proof {
                        lemma_decode_totals_by_party_house_list_prefix(want, i + 1);
                    }
                    return None;
                },
            }
            i += 1;
        }
        assert(want.take(i as int) == want);
        Some(out)
    }

    /// A copy of a list.
    pub fn duplicate_list(items: &Vec<TotalsByPartyHouse>) -> (r: Vec<TotalsByPartyHouse>)
        ensures
            r.deep_view() == items.deep_view(),
    {
        let mut out: Vec<TotalsByPartyHouse> = Vec::new();
        let mut i: usize = 0;
        while i < items.len()
            invariant
                i <= items@.len(),
                out@.len() == i,
                forall|j: int| 0 <= j < i ==>
                    (#[trigger] out@[j]).deep_view() == items@[j].deep_view(),
            decreases items@.len() - i,
        {
            out.push(items[i].duplicate());
            i += 1;
        }
        assert(out.deep_view() =~= items.deep_view());
        out
    }
}

/// The totals of the whole House.
#[derive(Debug)]
pub struct TotalsByVoteHouse {
    pub total_stub: Option<String>,
    pub yea_total: Option<String>,
    pub nay_total: Option<String>,
    pub present_total: Option<String>,
    pub not_voting_total: Option<String>,
}

/// The mathematical model of a `TotalsByVoteHouse`.
pub struct TotalsByVoteHouseView {
    pub total_stub: Option<Seq<char>>,
    pub yea_total: Option<Seq<char>>,
    pub nay_total: Option<Seq<char>>,
    pub present_total: Option<Seq<char>>,
    pub not_voting_total: Option<Seq<char>>,
}

impl DeepView for TotalsByVoteHouse {
    type V = TotalsByVoteHouseView;

    open spec fn deep_view(&self) -> TotalsByVoteHouseView {
        TotalsByVoteHouseView {
            total_stub: self.total_stub.deep_view(),
            yea_total: self.yea_total.deep_view(),
            nay_total: self.nay_total.deep_view(),
            present_total: self.present_total.deep_view(),
            not_voting_total: self.not_voting_total.deep_view(),
        }
    }
}

impl Default for TotalsByVoteHouse {
    fn default() -> (r: Self)
        ensures
            r.deep_view() == TotalsByVoteHouse::default_view(),
    {
        TotalsByVoteHouse {
            total_stub: None,
            yea_total: None,
            nay_total: None,
            present_total: None,
            not_voting_total: None,
        }
    }
}

/// The `TotalsByVoteHouse` that a JSON value holds: an object whose members have the
/// shapes that the fields ask for. Members with other names are passed over.
pub open spec fn decode_totals_by_vote_house(v: JsonView) -> Option<TotalsByVoteHouseView> {
    match v {
        JsonView::Object(m) => {
            let total_stub = opt_text(m, "total-stub"@);
            let yea_total = opt_text(m, "yea-total"@);
            let nay_total = opt_text(m, "nay-total"@);
            let present_total = opt_text(m, "present-total"@);
            let not_voting_total = opt_text(m, "not-voting-total"@);
            if total_stub is Some && yea_total is Some && nay_total is Some
                && present_total is Some && not_voting_total is Some {
                Some(
                    TotalsByVoteHouseView {
                        total_stub: total_stub->0,
                        yea_total: yea_total->0,
                        nay_total: nay_total->0,
                        present_total: present_total->0,
                        not_voting_total: not_voting_total->0,
                    },
                )
            } else {
                None
            }
        },
        _ => None,
    }
}

/// A `TotalsByVoteHouse` that may be missing.
pub open spec fn opt_totals_by_vote_house(
    m: Seq<JsonMemberView>,
    key: Seq<char>,
) -> Option<Option<TotalsByVoteHouseView>> {
    match optional(m, key) {
        None => Some(None),
        Some(x) => match decode_totals_by_vote_house(x) {
            Some(y) => Some(Some(y)),
            None => None,
        },
    }
}

impl TotalsByVoteHouse {
    /// The model of the value that `default` gives.
    pub open spec fn default_view() -> TotalsByVoteHouseView {
        TotalsByVoteHouseView {
            total_stub: None,
            yea_total: None,
            nay_total: None,
            present_total: None,
            not_voting_total: None,
        }
    }

    /// Decodes a JSON value.
    pub fn from_json(v: &JsonValue) -> (r: Option<TotalsByVoteHouse>)
        ensures
            r.deep_view() == decode_totals_by_vote_house(v.deep_view()),
    {
        proof {
            lemma_json_view(*v);
        }
        match v {
            JsonValue::Object(members) => {
                let total_stub = match opt_text_field(members, "total-stub") {
                    Some(x) => x,
                    None => {
                        return None;
                    },
                };
                let yea_total = match opt_text_field(members, "yea-total") {
                    Some(x) => x,
                    None => {
                        return None;
                    },
                };
                let nay_total = match opt_text_field(members, "nay-total") {
                    Some(x) => x,
                    None => {
                        return None;
                    },
                };
                let present_total = match opt_text_field(members, "present-total") {
                    Some(x) => x,
                    None => {
                        return None;
                    },
                };
                let not_voting_total = match opt_text_field(members, "not-voting-total") {
                    Some(x) => x,
                    None => {
                        return None;
                    },
                };
                Some(TotalsByVoteHouse {
                    total_stub,
                    yea_total,
                    nay_total,
                    present_total,
                    not_voting_total,
                })
            },
            _ => None,
        }
    }

    /// A copy of this value.
    pub fn duplicate(&self) -> (r: TotalsByVoteHouse)
        ensures
            r.deep_view() == self.deep_view(),
    {
        TotalsByVoteHouse {
            total_stub: dup_opt_text(&self.total_stub),
            yea_total: dup_opt_text(&self.yea_total),
            nay_total: dup_opt_text(&self.nay_total),
            present_total: dup_opt_text(&self.present_total),
            not_voting_total: dup_opt_text(&self.not_voting_total),
        }
    }
}

/// The totals of a House roll call, by party, by candidate and for the whole House.
#[derive(Debug)]
pub struct VoteTotalsHouse {
    pub totals_by_party_header: Option<TotalsByPartyHeaderHouse>,
    pub totals_by_party: Option<Vec<TotalsByPartyHouse>>,
    pub totals_by_vote: Option<TotalsByVoteHouse>,
    pub totals_by_candidate: Option<Vec<TotalsByCandidateHouse>>,
}

/// The mathematical model of a `VoteTotalsHouse`.
pub struct VoteTotalsHouseView {
    pub totals_by_party_header: Option<TotalsByPartyHeaderHouseView>,
    pub totals_by_party: Option<Seq<TotalsByPartyHouseView>>,
    pub totals_by_vote: Option<TotalsByVoteHouseView>,
    pub totals_by_candidate: Option<Seq<TotalsByCandidateHouseView>>,
}

impl DeepView for VoteTotalsHouse {
    type V = VoteTotalsHouseView;

    open spec fn deep_view(&self) -> VoteTotalsHouseView {
        VoteTotalsHouseView {
            totals_by_party_header: self.totals_by_party_header.deep_view(),
            totals_by_party: self.totals_by_party.deep_view(),
            totals_by_vote: self.totals_by_vote.deep_view(),
            totals_by_candidate: self.totals_by_candidate.deep_view(),
        }
    }
}

impl Default for VoteTotalsHouse {
    fn default() -> (r: Self)
        ensures
            r.deep_view() == VoteTotalsHouse::default_view(),
    {
        VoteTotalsHouse {
            totals_by_party_header: None,
            totals_by_party: None,
            totals_by_vote: None,
            totals_by_candidate: None,
        }
    }
}

/// The `VoteTotalsHouse` that a JSON value holds: an object whose members have the
/// shapes that the fields ask for. Members with other names are passed over.
pub open spec fn decode_vote_totals_house(v: JsonView) -> Option<VoteTotalsHouseView> {
    match v {
        JsonView::Object(m) => {
            let totals_by_party_header = opt_totals_by_party_header_house(
                m,
                "totals-by-party-header"@,
            );
            let totals_by_party = opt_totals_by_party_house_list(m, "totals-by-party"@);
            let totals_by_vote = opt_totals_by_vote_house(m, "totals-by-vote"@);
            let totals_by_candidate = opt_totals_by_candidate_house_list(m, "totals-by-candidate"@);
            if totals_by_party_header is Some && totals_by_party is Some && totals_by_vote is Some
                && totals_by_candidate is Some {
                Some(
                    VoteTotalsHouseView {
                        totals_by_party_header: totals_by_party_header->0,
                        totals_by_party: totals_by_party->0,
                        totals_by_vote: totals_by_vote->0,
                        totals_by_candidate: totals_by_candidate->0,
                    },
                )
            } else {
                None
            }
        },
        _ => None,
    }
}

/// A `VoteTotalsHouse` that may be missing.
pub open spec fn opt_vote_totals_house(
    m: Seq<JsonMemberView>,
    key: Seq<char>,
) -> Option<Option<VoteTotalsHouseView>> {
    match optional(m, key) {
        None => Some(None),
        Some(x) => match decode_vote_totals_house(x) {
            Some(y) => Some(Some(y)),
            None => None,
        },
    }
}

impl VoteTotalsHouse {
    /// The model of the value that `default` gives.
    pub open spec fn default_view() -> VoteTotalsHouseView {
        VoteTotalsHouseView {
            totals_by_party_header: None,
            totals_by_party: None,
            totals_by_vote: None,
            totals_by_candidate: None,
        }
    }

    /// Decodes a JSON value.
    pub fn from_json(v: &JsonValue) -> (r: Option<VoteTotalsHouse>)
        ensures
            r.deep_view() == decode_vote_totals_house(v.deep_view()),
    {
        proof {
            lemma_json_view(*v);
        }
        match v {
            JsonValue::Object(members) => {
                let totals_by_party_header = match optional_field(
                    members,
                    "totals-by-party-header",
                ) {
                    None => None,
                    Some(x) => match TotalsByPartyHeaderHouse::from_json(x) {
                        Some(y) => Some(y),
                        None => {
                            return None;
                        },
                    },
                };
                let totals_by_party = match optional_field(members, "totals-by-party") {
                    None => None,
                    Some(JsonValue::Array(items)) => {
                        proof {
                            lemma_json_view(JsonValue::Array(*items));
                        }
                        match TotalsByPartyHouse::list_from_json(items) {
                            Some(y) => Some(y),
                            None => {
                                return None;
                            },
                        }
                    },
                    Some(_) => {
                        return None;
                    },
                };
                let totals_by_vote = match optional_field(members, "totals-by-vote") {
                    None => None,
                    Some(x) => match TotalsByVoteHouse::from_json(x) {
                        Some(y) => Some(y),
                        None => {
                            return None;
                        },
                    },
                };
                let totals_by_candidate = match optional_field(members, "totals-by-candidate") {
                    None => None,
                    Some(JsonValue::Array(items)) => {
                        proof {
                            lemma_json_view(JsonValue::Array(*items));
                        }
                        match TotalsByCandidateHouse::list_from_json(items) {
                            Some(y) => Some(y),
                            None => {
                                return None;
                            },
                        }
                    },
                    Some(_) => {
                        return None;
                    },
                };
                Some(VoteTotalsHouse {
                    totals_by_party_header,
                    totals_by_party,
                    totals_by_vote,
                    totals_by_candidate,
                })
            },
            _ => None,
        }
    }

    /// A copy of this value.
    pub fn duplicate(&self) -> (r: VoteTotalsHouse)
        ensures
            r.deep_view() == self.deep_view(),
    {
        VoteTotalsHouse {
            totals_by_party_header: match &self.totals_by_party_header {
                Some(x) => Some(x.duplicate()),
                None => None,
            },
            totals_by_party: match &self.totals_by_party {
                Some(x) => Some(TotalsByPartyHouse::duplicate_list(x)),
                None => None,
            },
            totals_by_vote: match &self.totals_by_vote {
                Some(x) => Some(x.duplicate()),
                None => None,
            },
            totals_by_candidate: match &self.totals_by_candidate {
                Some(x) => Some(TotalsByCandidateHouse::duplicate_list(x)),
                None => None,
            },
        }
    }
}

/// The member of the House who cast a vote.
#[derive(Debug)]
pub struct LegislatorHouse {
    pub content: Option<String>,
    pub name_id: Option<String>,
    pub sort_field: Option<String>,
    pub unaccented_name: Option<String>,
    pub party: Option<String>,
    pub state: Option<String>,
    pub role: Option<String>,
}

/// The mathematical model of a `LegislatorHouse`.
pub struct LegislatorHouseView {
    pub content: Option<Seq<char>>,
    pub name_id: Option<Seq<char>>,
    pub sort_field: Option<Seq<char>>,
    pub unaccented_name: Option<Seq<char>>,
    pub party: Option<Seq<char>>,
    pub state: Option<Seq<char>>,
    pub role: Option<Seq<char>>,
}

impl DeepView for LegislatorHouse {
    type V = LegislatorHouseView;

    open spec fn deep_view(&self) -> LegislatorHouseView {
        LegislatorHouseView {
            content: self.content.deep_view(),
            name_id: self.name_id.deep_view(),
            sort_field: self.sort_field.deep_view(),
            unaccented_name: self.unaccented_name.deep_view(),
            party: self.party.deep_view(),
            state: self.state.deep_view(),
            role: self.role.deep_view(),
        }
    }
}

impl Default for LegislatorHouse {
    fn default() -> (r: Self)
        ensures
            r.deep_view() == LegislatorHouse::default_view(),
    {
        LegislatorHouse {
            content: None,
            name_id: None,
            sort_field: None,
            unaccented_name: None,
            party: None,
            state: None,
            role: None,
        }
    }
}

/// The `LegislatorHouse` that a JSON value holds: an object whose members have the
/// shapes that the fields ask for. Members with other names are passed over.
pub open spec fn decode_legislator_house(v: JsonView) -> Option<LegislatorHouseView> {
    match v {
        JsonView::Object(m) => {
            let content = opt_text(m, "content"@);
            let name_id = opt_text(m, "name-id"@);
            let sort_field = opt_text(m, "sort-field"@);
            let unaccented_name = opt_text(m, "unaccented-name"@);
            let party = opt_text(m, "party"@);
            let state = opt_text(m, "state"@);
            let role = opt_text(m, "role"@);
            if content is Some && name_id is Some && sort_field is Some && unaccented_name is Some
                && party is Some && state is Some && role is Some {
                Some(
                    LegislatorHouseView {
                        content: content->0,
                        name_id: name_id->0,
                        sort_field: sort_field->0,
                        unaccented_name: unaccented_name->0,
                        party: party->0,
                        state: state->0,
                        role: role->0,
                    },
                )
            } else {
                None
            }
        },
        _ => None,
    }
}

/// A `LegislatorHouse` that may be missing.
pub open spec fn opt_legislator_house(
    m: Seq<JsonMemberView>,
    key: Seq<char>,
) -> Option<Option<LegislatorHouseView>> {
    match optional(m, key) {
        None => Some(None),
        Some(x) => match decode_legislator_house(x) {
            Some(y) => Some(Some(y)),
            None => None,
        },
    }
}

impl LegislatorHouse {
    /// The model of the value that `default` gives.
    pub open spec fn default_view() -> LegislatorHouseView {
        LegislatorHouseView {
            content: None,
            name_id: None,
            sort_field: None,
            unaccented_name: None,
            party: None,
            state: None,
            role: None,
        }
    }

    /// Decodes a JSON value.
    pub fn from_json(v: &JsonValue) -> (r: Option<LegislatorHouse>)
        ensures
            r.deep_view() == decode_legislator_house(v.deep_view()),
    {
        proof {
            lemma_json_view(*v);
        }
        match v {
            JsonValue::Object(members) => {
                let content = match opt_text_field(members, "content") {
                    Some(x) => x,
                    None => {
                        return None;
                    },
                };
                let name_id = match opt_text_field(members, "name-id") {
                    Some(x) => x,
                    None => {
                        return None;
                    },
                };
                let sort_field = match opt_text_field(members, "sort-field") {
                    Some(x) => x,
                    None => {
                        return None;
                    },
                };
                let unaccented_name = match opt_text_field(members, "unaccented-name") {
                    Some(x) => x,
                    None => {
                        return None;
                    },
                };
                let party = match opt_text_field(members, "party") {
                    Some(x) => x,
                    None => {
                        return None;
                    },
                };
                let state = match opt_text_field(members, "state") {
                    Some(x) => x,
                    None => {
                        return None;
                    },
                };
                let role = match opt_text_field(members, "role") {
                    Some(x) => x,
                    None => {
                        return None;
                    },
                };
                Some(LegislatorHouse {
                    content,
                    name_id,
                    sort_field,
                    unaccented_name,
                    party,
                    state,
                    role,
                })
            },
            _ => None,
        }
    }

    /// A copy of this value.
    pub fn duplicate(&self) -> (r: LegislatorHouse)
        ensures
            r.deep_view() == self.deep_view(),
    {
        LegislatorHouse {
            content: dup_opt_text(&self.content),
            name_id: dup_opt_text(&self.name_id),
            sort_field: dup_opt_text(&self.sort_field),
            unaccented_name: dup_opt_text(&self.unaccented_name),
            party: dup_opt_text(&self.party),
            state: dup_opt_text(&self.state),
            role: dup_opt_text(&self.role),
        }
    }
}

/// One recorded vote: who voted, and how.
#[derive(Debug)]
pub struct RecordedVoteHouse {
    pub legislator: Option<LegislatorHouse>,
    pub vote: Option<String>,
}

/// The mathematical model of a `RecordedVoteHouse`.
pub struct RecordedVoteHouseView {
    pub legislator: Option<LegislatorHouseView>,
    pub vote: Option<Seq<char>>,
}

impl DeepView for RecordedVoteHouse {
    type V = RecordedVoteHouseView;

    open spec fn deep_view(&self) -> RecordedVoteHouseView {
        RecordedVoteHouseView {
            legislator: self.legislator.deep_view(),
            vote: self.vote.deep_view(),
        }
    }
}

impl Default for RecordedVoteHouse {
    fn default() -> (r: Self)
        ensures
            r.deep_view() == RecordedVoteHouse::default_view(),
    {
        RecordedVoteHouse {
            legislator: None,
            vote: None,
        }
    }
}

/// The `RecordedVoteHouse` that a JSON value holds: an object whose members have the
/// shapes that the fields ask for. Members with other names are passed over.
pub open spec fn decode_recorded_vote_house(v: JsonView) -> Option<RecordedVoteHouseView> {
    match v {
        JsonView::Object(m) => {
            let legislator = opt_legislator_house(m, "legislator"@);
            let vote = opt_text(m, "vote"@);
            if legislator is Some && vote is Some {
                Some(
                    RecordedVoteHouseView {
                        legislator: legislator->0,
                        vote: vote->0,
                    },
                )
            } else {
                None
            }
        },
        _ => None,
    }
}

/// The items of an array, each a `RecordedVoteHouse`; `None` if one of them is not.
pub open spec fn decode_recorded_vote_house_list(
    items: Seq<JsonView>,
) -> Option<Seq<RecordedVoteHouseView>>
    decreases items.len(),
{
    if items.len() == 0 {
        Some(Seq::empty())
    } else {
        match (
            decode_recorded_vote_house_list(items.drop_last()),
            decode_recorded_vote_house(items.last()),
        ) {
            (Some(head), Some(x)) => Some(head.push(x)),
            _ => None,
        }
    }
}

/// A list of `RecordedVoteHouse` that may be missing.
pub open spec fn opt_recorded_vote_house_list(
    m: Seq<JsonMemberView>,
    key: Seq<char>,
) -> Option<Option<Seq<RecordedVoteHouseView>>> {
    match optional(m, key) {
        None => Some(None),
        Some(JsonView::Array(items)) => match decode_recorded_vote_house_list(items) {
            Some(y) => Some(Some(y)),
            None => None,
        },
        Some(_) => None,
    }
}

/// A list whose beginning holds something else than a `RecordedVoteHouse` is no list of them.
pub proof fn lemma_decode_recorded_vote_house_list_prefix(items: Seq<JsonView>, k: int)
    requires
        0 <= k <= items.len(),
        decode_recorded_vote_house_list(items.take(k)) is None,
    ensures
        decode_recorded_vote_house_list(items) is None,
    decreases items.len() - k,
{
    if k < items.len() {
        assert(items.take(k + 1).drop_last() == items.take(k));
        lemma_decode_recorded_vote_house_list_prefix(items, k + 1);
    } else {
        assert(items.take(k) == items);
    }
}

impl RecordedVoteHouse {
    /// The model of the value that `default` gives.
    pub open spec fn default_view() -> RecordedVoteHouseView {
        RecordedVoteHouseView {
            legislator: None,
            vote: None,
        }
    }

    /// Decodes a JSON value.
    pub fn from_json(v: &JsonValue) -> (r: Option<RecordedVoteHouse>)
        ensures
            r.deep_view() == decode_recorded_vote_house(v.deep_view()),
    {
        proof {
            lemma_json_view(*v);
        }
        match v {
            JsonValue::Object(members) => {
                let legislator = match optional_field(members, "legislator") {
                    None => None,
                    Some(x) => match LegislatorHouse::from_json(x) {
                        Some(y) => Some(y),
                        None => {
                            return None;
                        },
                    },
                };
                let vote = match opt_text_field(members, "vote") {
                    Some(x) => x,
                    None => {
                        return None;
                    },
                };
                Some(RecordedVoteHouse {
                    legislator,
                    vote,
                })
            },
            _ => None,
        }
    }

    /// A copy of this value.
    pub fn duplicate(&self) -> (r: RecordedVoteHouse)
        ensures
            r.deep_view() == self.deep_view(),
    {
        RecordedVoteHouse {
            legislator: match &self.legislator {
                Some(x) => Some(x.duplicate()),
                None => None,
            },
            vote: dup_opt_text(&self.vote),
        }
    }

    /// Decodes the items of an array.
    pub fn list_from_json(items: &Vec<JsonValue>) -> (r: Option<Vec<RecordedVoteHouse>>)
        ensures
            r.deep_view() == decode_recorded_vote_house_list(views_of(items@)),
    {
        let ghost want = views_of(items@);
        let mut out: Vec<RecordedVoteHouse> = Vec::new();
        let mut i: usize = 0;
        assert(want.take(0) == Seq::<JsonView>::empty());
        assert(out.deep_view() =~= Seq::<RecordedVoteHouseView>::empty());
        while i < items.len()
            invariant
                i <= items@.len(),
                want == views_of(items@),
                decode_recorded_vote_house_list(want.take(i as int)) == Some(out.deep_view()),
            decreases items@.len() - i,
        {
            proof {
                assert(want[i as int] == items@[i as int].deep_view());
                assert(want.take(i + 1).drop_last() == want.take(i as int));
                assert(want.take(i + 1).last() == want[i as int]);
            }
            match RecordedVoteHouse::from_json(&items[i]) {
                Some(x) => {
                    let ghost before = out.deep_view();
                    let ghost added = x.deep_view();
                    out.push(x);
                    assert(out.deep_view() =~= before.push(added));
                },
                None => {
                    proof {
                        lemma_decode_recorded_vote_house_list_prefix(want, i + 1);
                    }
                    return None;
                },
            }
            i += 1;
        }
        assert(want.take(i as int) == want);
        Some(out)
    }

    /// A copy of a list.
    pub fn duplicate_list(items: &Vec<RecordedVoteHouse>) -> (r: Vec<RecordedVoteHouse>)
        ensures
            r.deep_view() == items.deep_view(),
    {
        let mut out: Vec<RecordedVoteHouse> = Vec::new();
        let mut i: usize = 0;
        while i < items.len()
            invariant
                i <= items@.len(),
                out@.len() == i,
                forall|j: int| 0 <= j < i ==>
                    (#[trigger] out@[j]).deep_view() == items@[j].deep_view(),
            decreases items@.len() - i,
        {
            out.push(items[i].duplicate());
            i += 1;
        }
        assert(out.deep_view() =~= items.deep_view());
        out
    }
}

/// The recorded votes of a House roll call.
#[derive(Debug)]
pub struct VoteDataHouse {
    pub recorded_vote: Option<Vec<RecordedVoteHouse>>,
}

/// The mathematical model of a `VoteDataHouse`.
pub struct VoteDataHouseView {
    pub recorded_vote: Option<Seq<RecordedVoteHouseView>>,
}

impl DeepView for VoteDataHouse {
    type V = VoteDataHouseView;

    open spec fn deep_view(&self) -> VoteDataHouseView {
        VoteDataHouseView {
            recorded_vote: self.recorded_vote.deep_view(),
        }
    }
}

impl Default for VoteDataHouse {
    fn default() -> (r: Self)
        ensures
            r.deep_view() == VoteDataHouse::default_view(),
    {
        VoteDataHouse {
            recorded_vote: None,
        }
    }
}

/// The `VoteDataHouse` that a JSON value holds: an object whose members have the
/// shapes that the fields ask for. Members with other names are passed over.
pub open spec fn decode_vote_data_house(v: JsonView) -> Option<VoteDataHouseView> {
    match v {
        JsonView::Object(m) => {
            let recorded_vote = opt_recorded_vote_house_list(m, "recorded-vote"@);
            if recorded_vote is Some {
                Some(
                    VoteDataHouseView {
                        recorded_vote: recorded_vote->0,
                    },
                )
            } else {
                None
            }
        },
        _ => None,
    }
}

/// A `VoteDataHouse` that may be missing.
pub open spec fn opt_vote_data_house(
    m: Seq<JsonMemberView>,
    key: Seq<char>,
) -> Option<Option<VoteDataHouseView>> {
    match optional(m, key) {
        None => Some(None),
        Some(x) => match decode_vote_data_house(x) {
            Some(y) => Some(Some(y)),
            None => None,
        },
    }
}

impl VoteDataHouse {
    /// The model of the value that `default` gives.
    pub open spec fn default_view() -> VoteDataHouseView {
        VoteDataHouseView {
            recorded_vote: None,
        }
    }

    /// Decodes a JSON value.
    pub fn from_json(v: &JsonValue) -> (r: Option<VoteDataHouse>)
        ensures
            r.deep_view() == decode_vote_data_house(v.deep_view()),
    {
        proof {
            lemma_json_view(*v);
        }
        match v {
            JsonValue::Object(members) => {
                let recorded_vote = match optional_field(members, "recorded-vote") {
                    None => None,
                    Some(JsonValue::Array(items)) => {
                        proof {
                            lemma_json_view(JsonValue::Array(*items));
                        }
                        match RecordedVoteHouse::list_from_json(items) {
                            Some(y) => Some(y),
                            None => {
                                return None;
                            },
                        }
                    },
                    Some(_) => {
                        return None;
                    },
                };
                Some(VoteDataHouse {
                    recorded_vote,
                })
            },
            _ => None,
        }
    }

    /// A copy of this value.
    pub fn duplicate(&self) -> (r: VoteDataHouse)
        ensures
            r.deep_view() == self.deep_view(),
    {
        VoteDataHouse {
            recorded_vote: match &self.recorded_vote {
                Some(x) => Some(RecordedVoteHouse::duplicate_list(x)),
                None => None,
            },
        }
    }
}

/// What a House roll call was about, and how it ended.
#[derive(Debug)]
pub struct VoteMetadataHouse {
    pub majority: Option<String>,
    pub congress: String,
    pub session: String,
    pub chamber: Option<String>,
    pub committee: Option<String>,
    pub rollcall_num: Response,
    pub legis_num: Option<String>,
    pub vote_question: Response,
    pub vote_type: Response,
    pub vote_result: Response,
    pub action_date: Response,
    pub action_time: Option<ActionTimeHouse>,
    pub vote_desc: Response,
    pub vote_totals: Option<VoteTotalsHouse>,
}

/// The mathematical model of a `VoteMetadataHouse`.
pub struct VoteMetadataHouseView {
    pub majority: Option<Seq<char>>,
    pub congress: Seq<char>,
    pub session: Seq<char>,
    pub chamber: Option<Seq<char>>,
    pub committee: Option<Seq<char>>,
    pub rollcall_num: ResponseView,
    pub legis_num: Option<Seq<char>>,
    pub vote_question: ResponseView,
    pub vote_type: ResponseView,
    pub vote_result: ResponseView,
    pub action_date: ResponseView,
    pub action_time: Option<ActionTimeHouseView>,
    pub vote_desc: ResponseView,
    pub vote_totals: Option<VoteTotalsHouseView>,
}

impl DeepView for VoteMetadataHouse {
    type V = VoteMetadataHouseView;

    open spec fn deep_view(&self) -> VoteMetadataHouseView {
        VoteMetadataHouseView {
            majority: self.majority.deep_view(),
            congress: self.congress.deep_view(),
            session: self.session.deep_view(),
            chamber: self.chamber.deep_view(),
            committee: self.committee.deep_view(),
            rollcall_num: self.rollcall_num.deep_view(),
            legis_num: self.legis_num.deep_view(),
            vote_question: self.vote_question.deep_view(),
            vote_type: self.vote_type.deep_view(),
            vote_result: self.vote_result.deep_view(),
            action_date: self.action_date.deep_view(),
            action_time: self.action_time.deep_view(),
            vote_desc: self.vote_desc.deep_view(),
            vote_totals: self.vote_totals.deep_view(),
        }
    }
}

impl Default for VoteMetadataHouse {
    fn default() -> (r: Self)
        ensures
            r.deep_view() == VoteMetadataHouse::default_view(),
    {
        VoteMetadataHouse {
            majority: None,
            congress: String::new(),
            session: String::new(),
            chamber: None,
            committee: None,
            rollcall_num: Response::Absent,
            legis_num: None,
            vote_question: Response::Absent,
            vote_type: Response::Absent,
            vote_result: Response::Absent,
            action_date: Response::Absent,
            action_time: None,
            vote_desc: Response::Absent,
            vote_totals: None,
        }
    }
}

/// The `VoteMetadataHouse` that a JSON value holds: an object whose members have the
/// shapes that the fields ask for. Members with other names are passed over.
pub open spec fn decode_vote_metadata_house(v: JsonView) -> Option<VoteMetadataHouseView> {
    match v {
        JsonView::Object(m) => {
            let majority = opt_text(m, "majority"@);
            let congress = req_text(m, "congress"@);
            let session = req_text(m, "session"@);
            let chamber = opt_text(m, "chamber"@);
            let committee = opt_text(m, "committee"@);
            let rollcall_num = req_response(m, "rollcall-num"@);
            let legis_num = opt_text(m, "legis-num"@);
            let vote_question = req_response(m, "vote-question"@);
            let vote_type = req_response(m, "vote-type"@);
            let vote_result = req_response(m, "vote-result"@);
            let action_date = req_response(m, "action-date"@);
            let action_time = opt_action_time_house(m, "action-time"@);
            let vote_desc = req_response(m, "vote-desc"@);
            let vote_totals = opt_vote_totals_house(m, "vote-totals"@);
            if majority is Some && congress is Some && session is Some && chamber is Some
                && committee is Some && rollcall_num is Some && legis_num is Some
                && vote_question is Some && vote_type is Some && vote_result is Some
                && action_date is Some && action_time is Some && vote_desc is Some
                && vote_totals is Some {
                Some(
                    VoteMetadataHouseView {
                        majority: majority->0,
                        congress: congress->0,
                        session: session->0,
                        chamber: chamber->0,
                        committee: committee->0,
                        rollcall_num: rollcall_num->0,
                        legis_num: legis_num->0,
                        vote_question: vote_question->0,
                        vote_type: vote_type->0,
                        vote_result: vote_result->0,
                        action_date: action_date->0,
                        action_time: action_time->0,
                        vote_desc: vote_desc->0,
                        vote_totals: vote_totals->0,
                    },
                )
            } else {
                None
            }
        },
        _ => None,
    }
}

/// A `VoteMetadataHouse` that has to be there.
pub open spec fn req_vote_metadata_house(
    m: Seq<JsonMemberView>,
    key: Seq<char>,
) -> Option<VoteMetadataHouseView> {
    match member(m, key) {
        Some(x) => decode_vote_metadata_house(x),
        None => None,
    }
}

impl VoteMetadataHouse {
    /// The model of the value that `default` gives.
    pub open spec fn default_view() -> VoteMetadataHouseView {
        VoteMetadataHouseView {
            majority: None,
            congress: Seq::empty(),
            session: Seq::empty(),
            chamber: None,
            committee: None,
            rollcall_num: ResponseView::Absent,
            legis_num: None,
            vote_question: ResponseView::Absent,
            vote_type: ResponseView::Absent,
            vote_result: ResponseView::Absent,
            action_date: ResponseView::Absent,
            action_time: None,
            vote_desc: ResponseView::Absent,
            vote_totals: None,
        }
    }

    /// Decodes a JSON value.
    pub fn from_json(v: &JsonValue) -> (r: Option<VoteMetadataHouse>)
        ensures
            r.deep_view() == decode_vote_metadata_house(v.deep_view()),
    {
        proof {
            lemma_json_view(*v);
        }
        match v {
            JsonValue::Object(members) => {
                let majority = match opt_text_field(members, "majority") {
                    Some(x) => x,
                    None => {
                        return None;
                    },
                };
                let congress = match req_text_field(members, "congress") {
                    Some(x) => x,
                    None => {
                        return None;
                    },
                };
                let session = match req_text_field(members, "session") {
                    Some(x) => x,
                    None => {
                        return None;
                    },
                };
                let chamber = match opt_text_field(members, "chamber") {
                    Some(x) => x,
                    None => {
                        return None;
                    },
                };
                let committee = match opt_text_field(members, "committee") {
                    Some(x) => x,
                    None => {
                        return None;
                    },
                };
                let rollcall_num = match req_response_field(members, "rollcall-num") {
                    Some(x) => x,
                    None => {
                        return None;
                    },
                };
                let legis_num = match opt_text_field(members, "legis-num") {
                    Some(x) => x,
                    None => {
                        return None;
                    },
                };
                let vote_question = match req_response_field(members, "vote-question") {
                    Some(x) => x,
                    None => {
                        return None;
                    },
                };
                let vote_type = match req_response_field(members, "vote-type") {
                    Some(x) => x,
                    None => {
                        return None;
                    },
                };
                let vote_result = match req_response_field(members, "vote-result") {
                    Some(x) => x,
                    None => {
                        return None;
                    },
                };
                let action_date = match req_response_field(members, "action-date") {
                    Some(x) => x,
                    None => {
                        return None;
                    },
                };
                let action_time = match optional_field(members, "action-time") {
                    None => None,
                    Some(x) => match ActionTimeHouse::from_json(x) {
                        Some(y) => Some(y),
                        None => {
                            return None;
                        },
                    },
                };
                let vote_desc = match req_response_field(members, "vote-desc") {
                    Some(x) => x,
                    None => {
                        return None;
                    },
                };
                let vote_totals = match optional_field(members, "vote-totals") {
                    None => None,
                    Some(x) => match VoteTotalsHouse::from_json(x) {
                        Some(y) => Some(y),
                        None => {
                            return None;
                        },
                    },
                };
                Some(VoteMetadataHouse {
                    majority,
                    congress,
                    session,
                    chamber,
                    committee,
                    rollcall_num,
                    legis_num,
                    vote_question,
                    vote_type,
                    vote_result,
                    action_date,
                    action_time,
                    vote_desc,
                    vote_totals,
                })
            },
            _ => None,
        }
    }

    /// A copy of this value.
    pub fn duplicate(&self) -> (r: VoteMetadataHouse)
        ensures
            r.deep_view() == self.deep_view(),
    {
        VoteMetadataHouse {
            majority: dup_opt_text(&self.majority),
            congress: self.congress.clone(),
            session: self.session.clone(),
            chamber: dup_opt_text(&self.chamber),
            committee: dup_opt_text(&self.committee),
            rollcall_num: self.rollcall_num.duplicate(),
            legis_num: dup_opt_text(&self.legis_num),
            vote_question: self.vote_question.duplicate(),
            vote_type: self.vote_type.duplicate(),
            vote_result: self.vote_result.duplicate(),
            action_date: self.action_date.duplicate(),
            action_time: match &self.action_time {
                Some(x) => Some(x.duplicate()),
                None => None,
            },
            vote_desc: self.vote_desc.duplicate(),
            vote_totals: match &self.vote_totals {
                Some(x) => Some(x.duplicate()),
                None => None,
            },
        }
    }
}

/// A House roll call: its description and its recorded votes.
#[derive(Debug)]
pub struct RollCallVoteHouse {
    pub vote_metadata: VoteMetadataHouse,
    pub vote_data: Option<VoteDataHouse>,
}

/// The mathematical model of a `RollCallVoteHouse`.
pub struct RollCallVoteHouseView {
    pub vote_metadata: VoteMetadataHouseView,
    pub vote_data: Option<VoteDataHouseView>,
}

impl DeepView for RollCallVoteHouse {
    type V = RollCallVoteHouseView;

    open spec fn deep_view(&self) -> RollCallVoteHouseView {
        RollCallVoteHouseView {
            vote_metadata: self.vote_metadata.deep_view(),
            vote_data: self.vote_data.deep_view(),
        }
    }
}

impl Default for RollCallVoteHouse {
    fn default() -> (r: Self)
        ensures
            r.deep_view() == RollCallVoteHouse::default_view(),
    {
        RollCallVoteHouse {
            vote_metadata: VoteMetadataHouse::default(),
            vote_data: None,
        }
    }
}

/// The `RollCallVoteHouse` that a JSON value holds: an object whose members have the
/// shapes that the fields ask for. Members with other names are passed over.
pub open spec fn decode_roll_call_vote_house(v: JsonView) -> Option<RollCallVoteHouseView> {
    match v {
        JsonView::Object(m) => {
            let vote_metadata = req_vote_metadata_house(m, "vote-metadata"@);
            let vote_data = opt_vote_data_house(m, "vote-data"@);
            if vote_metadata is Some && vote_data is Some {
                Some(
                    RollCallVoteHouseView {
                        vote_metadata: vote_metadata->0,
                        vote_data: vote_data->0,
                    },
                )
            } else {
                None
            }
        },
        _ => None,
    }
}

/// A `RollCallVoteHouse` that has to be there.
pub open spec fn req_roll_call_vote_house(
    m: Seq<JsonMemberView>,
    key: Seq<char>,
) -> Option<RollCallVoteHouseView> {
    match member(m, key) {
        Some(x) => decode_roll_call_vote_house(x),
        None => None,
    }
}

impl RollCallVoteHouse {
    /// The model of the value that `default` gives.
    pub open spec fn default_view() -> RollCallVoteHouseView {
        RollCallVoteHouseView {
            vote_metadata: VoteMetadataHouse::default_view(),
            vote_data: None,
        }
    }

    /// Decodes a JSON value.
    pub fn from_json(v: &JsonValue) -> (r: Option<RollCallVoteHouse>)
        ensures
            r.deep_view() == decode_roll_call_vote_house(v.deep_view()),
    {
        proof {
            lemma_json_view(*v);
        }
        match v {
            JsonValue::Object(members) => {
                let vote_metadata = match find_member(members, "vote-metadata") {
                    None => {
                        return None;
                    },
                    Some(x) => match VoteMetadataHouse::from_json(x) {
                        Some(y) => y,
                        None => {
                            return None;
                        },
                    },
                };
                let vote_data = match optional_field(members, "vote-data") {
                    None => None,
                    Some(x) => match VoteDataHouse::from_json(x) {
                        Some(y) => Some(y),
                        None => {
                            return None;
                        },
                    },
                };
                Some(RollCallVoteHouse {
                    vote_metadata,
                    vote_data,
                })
            },
            _ => None,
        }
    }

    /// A copy of this value.
    pub fn duplicate(&self) -> (r: RollCallVoteHouse)
        ensures
            r.deep_view() == self.deep_view(),
    {
        RollCallVoteHouse {
            vote_metadata: self.vote_metadata.duplicate(),
            vote_data: match &self.vote_data {
                Some(x) => Some(x.duplicate()),
                None => None,
            },
        }
    }
}

/// A file that holds one House roll call.
#[derive(Debug)]
pub struct HouseFile {
    pub rollcall_vote: RollCallVoteHouse,
}

/// The mathematical model of a `HouseFile`.
pub struct HouseFileView {
    pub rollcall_vote: RollCallVoteHouseView,
}

impl DeepView for HouseFile {
    type V = HouseFileView;

    open spec fn deep_view(&self) -> HouseFileView {
        HouseFileView {
            rollcall_vote: self.rollcall_vote.deep_view(),
        }
    }
}

impl Default for HouseFile {
    fn default() -> (r: Self)
        ensures
            r.deep_view() == HouseFile::default_view(),
    {
        HouseFile {
            rollcall_vote: RollCallVoteHouse::default(),
        }
    }
}

/// The `HouseFile` that a JSON value holds: an object whose members have the
/// shapes that the fields ask for. Members with other names are passed over.
pub open spec fn decode_house_file(v: JsonView) -> Option<HouseFileView> {
    match v {
        JsonView::Object(m) => {
            let rollcall_vote = req_roll_call_vote_house(m, "rollcall-vote"@);
            if rollcall_vote is Some {
                Some(
                    HouseFileView {
                        rollcall_vote: rollcall_vote->0,
                    },
                )
            } else {
                None
            }
        },
        _ => None,
    }
}

impl HouseFile {
    /// The model of the value that `default` gives.
    pub open spec fn default_view() -> HouseFileView {
        HouseFileView {
            rollcall_vote: RollCallVoteHouse::default_view(),
        }
    }

    /// Decodes a JSON value.
    pub fn from_json(v: &JsonValue) -> (r: Option<HouseFile>)
        ensures
            r.deep_view() == decode_house_file(v.deep_view()),
    {
        proof {
            lemma_json_view(*v);
        }
        match v {
            JsonValue::Object(members) => {
                let rollcall_vote = match find_member(members, "rollcall-vote") {
                    None => {
                        return None;
                    },
                    Some(x) => match RollCallVoteHouse::from_json(x) {
                        Some(y) => y,
                        None => {
                            return None;
                        },
                    },
                };
                Some(HouseFile {
                    rollcall_vote,
                })
            },
            _ => None,
        }
    }

    /// A copy of this value.
    pub fn duplicate(&self) -> (r: HouseFile)
        ensures
            r.deep_view() == self.deep_view(),
    {
        HouseFile {
            rollcall_vote: self.rollcall_vote.duplicate(),
        }
    }
}
} // verus!
