//! The aggregation tree: every vote of a run, filed by chamber, congress,
//! session and roll call.
use crate::aggregation::{lemma_tree_insert, one_record_each};
use crate::fields::{text_or, text_or_else};
use crate::house::{
    decode_house_file, HouseFile, HouseFileView, RecordedVoteHouse, RecordedVoteHouseView,
    RollCallVoteHouse, RollCallVoteHouseView, VoteMetadataHouseView,
};
use crate::json::{json_document, parse, JsonValue, JsonView};
use crate::paths::{parse_vote_path, vote_path, PathError, VotePath, VotePathView};
use crate::responses::{
    chamber_views, congress_views, session_views, ChamberData, ChamberDataView, ChamberEntry,
    CombinedData, CombinedDataView, CongressData, CongressDataView, RollCallData, RollCallDataView,
    SessionData, SessionDataView, UnifiedVote, UnifiedVoteView,
};
use crate::senate::{
    decode_senate_file, MemberSenate, MemberSenateView, RollCallVoteSenate,
    RollCallVoteSenateView, SenateFile, SenateFileView,
};
use crate::sql_senate::{cast_of, number_or, response_text, text_or_null, vote_cast_of};
use crate::text::{lowercase, parse_bounded, text_eq};
use vstd::prelude::*;
use vstd::string::*;

verus! {

/// Where the first roll call with the given number stands in a session; the
/// length of the session where there is none.
pub open spec fn position(rollcalls: Seq<RollCallDataView>, number: int) -> int
    decreases rollcalls.len(),
{
    if rollcalls.len() == 0 {
        0
    } else if rollcalls[0].rollcall_number == number {
        0
    } else {
        1 + position(rollcalls.skip(1), number)
    }
}

/// The record that a vote opens where its roll call has none yet.
pub open spec fn new_record(vote: UnifiedVoteView) -> RollCallDataView {
    RollCallDataView {
        rollcall_number: vote.rollcall_number,
        vote_date: vote.vote_date,
        vote_question: vote.vote_question,
        vote_result: vote.vote_result,
        vote_casts: seq![vote],
    }
}

/// A record with one more vote at the end of its votes.
pub open spec fn with_vote(record: RollCallDataView, vote: UnifiedVoteView) -> RollCallDataView {
    RollCallDataView { vote_casts: record.vote_casts.push(vote), ..record }
}

/// A session after a vote is filed in it: the vote joins the first record of
/// its roll call, or opens a record at the end of the session.
pub open spec fn session_insert(
    session: SessionDataView,
    vote: UnifiedVoteView,
) -> SessionDataView {
    let p = position(session.rollcalls, vote.rollcall_number);
    if p < session.rollcalls.len() {
        SessionDataView {
            rollcalls: session.rollcalls.update(p, with_vote(session.rollcalls[p], vote)),
        }
    } else {
        SessionDataView { rollcalls: session.rollcalls.push(new_record(vote)) }
    }
}

/// The session of the given number, empty where the congress has none.
pub open spec fn session_of(congress: CongressDataView, number: int) -> SessionDataView {
    if congress.sessions.contains_key(number) {
        congress.sessions[number]
    } else {
        SessionDataView { rollcalls: Seq::empty() }
    }
}

/// The congress of the given number, empty where the chamber has none.
pub open spec fn congress_of(chamber: ChamberDataView, number: int) -> CongressDataView {
    if chamber.congresses.contains_key(number) {
        chamber.congresses[number]
    } else {
        CongressDataView { sessions: Map::empty() }
    }
}

/// The chamber of the given name, empty where the tree has none.
pub open spec fn chamber_of_tree(tree: CombinedDataView, name: Seq<char>) -> ChamberDataView {
    if tree.chambers.contains_key(name) {
        tree.chambers[name]
    } else {
        ChamberDataView { congresses: Map::empty() }
    }
}

/// A congress after a vote is filed in it.
pub open spec fn congress_insert(
    congress: CongressDataView,
    vote: UnifiedVoteView,
) -> CongressDataView {
    CongressDataView {
        sessions: congress.sessions.insert(
            vote.session_number,
            session_insert(session_of(congress, vote.session_number), vote),
        ),
    }
}

/// A chamber after a vote is filed in it.
pub open spec fn chamber_insert(
    chamber: ChamberDataView,
    vote: UnifiedVoteView,
) -> ChamberDataView {
    ChamberDataView {
        congresses: chamber.congresses.insert(
            vote.congress_number,
            congress_insert(congress_of(chamber, vote.congress_number), vote),
        ),
    }
}

/// The tree after a vote is filed in it: under the vote's chamber in lower
/// case, its congress, its session and its roll call, each of which is made
/// where it is not there yet. Nothing else changes.
pub open spec fn tree_insert(tree: CombinedDataView, vote: UnifiedVoteView) -> CombinedDataView {
    let name = lowercase(vote.chamber);
    CombinedDataView {
        chambers: tree.chambers.insert(name, chamber_insert(chamber_of_tree(tree, name), vote)),
    }
}

/// What `position` gives is the first place of the number, and nothing else is.
pub proof fn lemma_position(rollcalls: Seq<RollCallDataView>, number: int)
    ensures
        0 <= position(rollcalls, number) <= rollcalls.len(),
        forall|j: int|
            0 <= j < position(rollcalls, number) ==> (#[trigger] rollcalls[j]).rollcall_number
                != number,
        position(rollcalls, number) < rollcalls.len() ==> rollcalls[position(
            rollcalls,
            number,
        )].rollcall_number == number,
    decreases rollcalls.len(),
{
    if rollcalls.len() > 0 && rollcalls[0].rollcall_number != number {
        let rest = rollcalls.skip(1);
        lemma_position(rest, number);
        assert forall|j: int| 0 <= j < position(rollcalls, number) implies (
        #[trigger] rollcalls[j]).rollcall_number != number by {
            if j > 0 {
                assert(rollcalls[j] == rest[j - 1]);
            }
        }
        if position(rollcalls, number) < rollcalls.len() {
            assert(rollcalls[position(rollcalls, number)] == rest[position(rest, number)]);
        }
    }
}

/// A place before which the number does not stand, and at which it stands
/// if the place is in the session, is the place that `position` gives.
pub proof fn lemma_position_is(rollcalls: Seq<RollCallDataView>, number: int, p: int)
    requires
        0 <= p <= rollcalls.len(),
        forall|j: int| 0 <= j < p ==> (#[trigger] rollcalls[j]).rollcall_number != number,
        p < rollcalls.len() ==> rollcalls[p].rollcall_number == number,
    ensures
        position(rollcalls, number) == p,
    decreases rollcalls.len(),
{
    if p > 0 {
        let rest = rollcalls.skip(1);
        assert(rollcalls[0].rollcall_number != number);
        assert forall|j: int| 0 <= j < p - 1 implies (#[trigger] rest[j]).rollcall_number
            != number by {
            assert(rest[j] == rollcalls[j + 1]);
        }
        if p < rollcalls.len() {
            assert(rest[p - 1] == rollcalls[p]);
        }
        lemma_position_is(rest, number, p - 1);
    }
}

/// Files a vote in a session.
pub fn insert_into_session(vote: &UnifiedVote, session: &mut SessionData)
    ensures
        final(session).deep_view() == session_insert(old(session).deep_view(), vote.deep_view()),
{
    let ghost before = session.rollcalls.deep_view();
    let ghost number = vote.rollcall_number as int;
    let mut i: usize = 0;
    while i < session.rollcalls.len()
        invariant
            i <= session.rollcalls@.len(),
            *session == *old(session),
            before == session.rollcalls.deep_view(),
            number == vote.rollcall_number as int,
            forall|j: int| 0 <= j < i ==> (#[trigger] before[j]).rollcall_number != number,
        decreases session.rollcalls@.len() - i,
    {
        assert(before[i as int] == session.rollcalls@[i as int].deep_view());
        if session.rollcalls[i].rollcall_number == vote.rollcall_number {
            proof {
                lemma_position_is(before, number, i as int);
            }
            let ghost casts = session.rollcalls@[i as int].vote_casts.deep_view();
            let copy = vote.duplicate();
            session.rollcalls[i].vote_casts.push(copy);
            proof {
                assert(session.rollcalls@[i as int].vote_casts.deep_view() =~= casts.push(
                    vote.deep_view(),
                ));
                assert(session.rollcalls.deep_view() =~= before.update(
                    i as int,
                    with_vote(before[i as int], vote.deep_view()),
                ));
            }
            return ;
        }
        i += 1;
    }
    proof {
        lemma_position_is(before, number, before.len() as int);
    }
    let mut casts: Vec<UnifiedVote> = Vec::new();
    casts.push(vote.duplicate());
    let record = RollCallData {
        rollcall_number: vote.rollcall_number,
        vote_date: vote.vote_date.clone(),
        vote_question: vote.vote_question.clone(),
        vote_result: vote.vote_result.clone(),
        vote_casts: casts,
    };
    proof {
        assert(record.vote_casts.deep_view() =~= seq![vote.deep_view()]);
    }
    session.rollcalls.push(record);
    proof {
        assert(session.rollcalls.deep_view() =~= before.push(new_record(vote.deep_view())));
    }
}

/// Files a vote in a congress.
pub fn insert_into_congress(vote: &UnifiedVote, congress: &mut CongressData)
    ensures
        final(congress).deep_view() == congress_insert(old(congress).deep_view(), vote.deep_view()),
{
    broadcast use vstd::std_specs::hash::group_hash_axioms;

    let ghost before = congress.sessions@;
    let session = congress.sessions.entry(vote.session_number).or_insert(SessionData::default());
    insert_into_session(vote, session);
    proof {
        let k = vote.session_number;
        assert(congress.sessions@ == before.insert(k, congress.sessions@[k]));
        assert(session_views(congress.sessions@) =~= session_views(before).insert(
            k as int,
            congress.sessions@[k].deep_view(),
        ));
    }
}

/// Files a vote in a chamber.
pub fn insert_into_chamber(vote: &UnifiedVote, chamber: &mut ChamberData)
    ensures
        final(chamber).deep_view() == chamber_insert(old(chamber).deep_view(), vote.deep_view()),
{
    broadcast use vstd::std_specs::hash::group_hash_axioms;

    let ghost before = chamber.congresses@;
    let congress = chamber.congresses.entry(vote.congress_number).or_insert(
        CongressData::default(),
    );
    insert_into_congress(vote, congress);
    proof {
        let k = vote.congress_number;
        assert(chamber.congresses@ == before.insert(k, chamber.congresses@[k]));
        assert(congress_views(chamber.congresses@) =~= congress_views(before).insert(
            k as int,
            chamber.congresses@[k].deep_view(),
        ));
    }
}

/// Where the first chamber of the given name stands in the list; the length
/// of the list where there is none.
pub open spec fn chamber_position(chambers: Seq<ChamberEntry>, name: Seq<char>) -> int
    decreases chambers.len(),
{
    if chambers.len() == 0 {
        0
    } else if chambers[0].name@ == name {
        0
    } else {
        1 + chamber_position(chambers.drop_first(), name)
    }
}

/// A place before which the name does not stand, and at which it stands if
/// the place is in the list, is the place that `chamber_position` gives; and
/// the tree files under the name what stands there.
pub proof fn lemma_chamber_position_is(chambers: Seq<ChamberEntry>, name: Seq<char>, p: int)
    requires
        0 <= p <= chambers.len(),
        forall|j: int| 0 <= j < p ==> (#[trigger] chambers[j]).name@ != name,
        p < chambers.len() ==> chambers[p].name@ == name,
    ensures
        chamber_position(chambers, name) == p,
        chamber_views(chambers).contains_key(name) <==> p < chambers.len(),
        p < chambers.len() ==> chamber_views(chambers)[name] == chambers[p].data.deep_view(),
    decreases chambers.len(),
{
    if p > 0 {
        let rest = chambers.drop_first();
        assert(chambers[0].name@ != name);
        assert forall|j: int| 0 <= j < p - 1 implies (#[trigger] rest[j]).name@ != name by {
            assert(rest[j] == chambers[j + 1]);
        }
        if p < chambers.len() {
            assert(rest[p - 1] == chambers[p]);
        }
        lemma_chamber_position_is(rest, name, p - 1);
    }
}

/// Replacing what the first chamber of a name holds replaces what the tree
/// files under that name, and nothing else.
pub proof fn lemma_chamber_update(chambers: Seq<ChamberEntry>, p: int, entry: ChamberEntry)
    requires
        0 <= p < chambers.len(),
        forall|j: int| 0 <= j < p ==> (#[trigger] chambers[j]).name@ != entry.name@,
        chambers[p].name@ == entry.name@,
    ensures
        chamber_views(chambers.update(p, entry)) == chamber_views(chambers).insert(
            entry.name@,
            entry.data.deep_view(),
        ),
    decreases chambers.len(),
{
    let changed = chambers.update(p, entry);
    if p == 0 {
        assert(changed.drop_first() == chambers.drop_first());
        assert(chamber_views(changed) =~= chamber_views(chambers).insert(
            entry.name@,
            entry.data.deep_view(),
        ));
    } else {
        let rest = chambers.drop_first();
        assert forall|j: int| 0 <= j < p - 1 implies (#[trigger] rest[j]).name@
            != entry.name@ by {
            assert(rest[j] == chambers[j + 1]);
        }
        assert(rest[p - 1] == chambers[p]);
        lemma_chamber_update(rest, p - 1, entry);
        assert(changed.drop_first() == rest.update(p - 1, entry));
        assert(changed[0] == chambers[0]);
        assert(chambers[0].name@ != entry.name@);
        assert(chamber_views(changed) =~= chamber_views(chambers).insert(
            entry.name@,
            entry.data.deep_view(),
        ));
    }
}

/// A chamber added at the end under a name that the list does not hold is
/// filed under that name, and nothing else changes.
pub proof fn lemma_chamber_push(chambers: Seq<ChamberEntry>, entry: ChamberEntry)
    requires
        forall|j: int| 0 <= j < chambers.len() ==> (#[trigger] chambers[j]).name@ != entry.name@,
    ensures
        chamber_views(chambers.push(entry)) == chamber_views(chambers).insert(
            entry.name@,
            entry.data.deep_view(),
        ),
    decreases chambers.len(),
{
    let grown = chambers.push(entry);
    if chambers.len() == 0 {
        assert(grown.drop_first() =~= Seq::<ChamberEntry>::empty());
        assert(chamber_views(grown.drop_first()) =~= Map::empty());
        assert(chamber_views(grown) =~= chamber_views(chambers).insert(
            entry.name@,
            entry.data.deep_view(),
        ));
    } else {
        let rest = chambers.drop_first();
        assert forall|j: int| 0 <= j < rest.len() implies (#[trigger] rest[j]).name@
            != entry.name@ by {
            assert(rest[j] == chambers[j + 1]);
        }
        lemma_chamber_push(rest, entry);
        assert(grown.drop_first() == rest.push(entry));
        assert(grown[0] == chambers[0]);
        assert(chambers[0].name@ != entry.name@);
        assert(chamber_views(grown) =~= chamber_views(chambers).insert(
            entry.name@,
            entry.data.deep_view(),
        ));
    }
}

/// Where the first chamber of the given name stands in the list.
pub fn find_chamber(chambers: &Vec<ChamberEntry>, name: &str) -> (r: Option<usize>)
    ensures
        match r {
            Some(p) => p < chambers@.len() && chamber_position(chambers@, name@) == p,
            None => chamber_position(chambers@, name@) == chambers@.len(),
        },
        match r {
            Some(p) => chambers@[p as int].name@ == name@ && forall|j: int|
                0 <= j < p ==> (#[trigger] chambers@[j]).name@ != name@,
            None => forall|j: int|
                0 <= j < chambers@.len() ==> (#[trigger] chambers@[j]).name@ != name@,
        },
{
    let mut i: usize = 0;
    while i < chambers.len()
        invariant
            i <= chambers@.len(),
            forall|j: int| 0 <= j < i ==> (#[trigger] chambers@[j]).name@ != name@,
        decreases chambers@.len() - i,
    {
        if text_eq(chambers[i].name.as_str(), name) {
            proof {
                lemma_chamber_position_is(chambers@, name@, i as int);
            }
            return Some(i);
        }
        i += 1;
    }
    proof {
        lemma_chamber_position_is(chambers@, name@, chambers@.len() as int);
    }
    None
}

/// Files a vote in the tree. This never fails, and a tree with at most one
/// record for each roll call stays one.
pub fn insert_into_database(vote: &UnifiedVote, combined_data: &mut CombinedData) -> (r: Result<
    (),
    String,
>)
    ensures
        r is Ok,
        final(combined_data).deep_view() == tree_insert(
            old(combined_data).deep_view(),
            vote.deep_view(),
        ),
        one_record_each(old(combined_data).deep_view()) ==> one_record_each(
            final(combined_data).deep_view(),
        ),
{
    proof {
        lemma_tree_insert(combined_data.deep_view(), vote.deep_view());
    }
    let name = vote.chamber.as_str().to_lowercase();
    let ghost before = combined_data.chambers@;
    match find_chamber(&combined_data.chambers, name.as_str()) {
        Some(p) => {
            proof {
                lemma_chamber_position_is(before, name@, p as int);
            }
            insert_into_chamber(vote, &mut combined_data.chambers[p].data);
            proof {
                let entry = combined_data.chambers@[p as int];
                assert(combined_data.chambers@ =~= before.update(p as int, entry));
                lemma_chamber_update(before, p as int, entry);
            }
        },
        None => {
            proof {
                lemma_chamber_position_is(before, name@, before.len() as int);
            }
            let mut data = ChamberData::default();
            insert_into_chamber(vote, &mut data);
            let entry = ChamberEntry { name, data };
            proof {
                lemma_chamber_push(before, entry);
            }
            combined_data.chambers.push(entry);
        },
    }
    Ok(())
}

/// The tree after a run of votes is filed in it, one after the other.
pub open spec fn tree_insert_all(
    tree: CombinedDataView,
    votes: Seq<UnifiedVoteView>,
) -> CombinedDataView
    decreases votes.len(),
{
    if votes.len() == 0 {
        tree
    } else {
        tree_insert(tree_insert_all(tree, votes.drop_last()), votes.last())
    }
}

/// Files a run of votes in the tree, one after the other. A tree with at
/// most one record for each roll call stays one.
pub fn insert_all_into_database(votes: &Vec<UnifiedVote>, combined_data: &mut CombinedData)
    ensures
        final(combined_data).deep_view() == tree_insert_all(
            old(combined_data).deep_view(),
            votes.deep_view(),
        ),
        one_record_each(old(combined_data).deep_view()) ==> one_record_each(
            final(combined_data).deep_view(),
        ),
{
    let ghost all = votes.deep_view();
    let mut i: usize = 0;
    assert(all.take(0) =~= Seq::<UnifiedVoteView>::empty());
    while i < votes.len()
        invariant
            i <= votes@.len(),
            all == votes.deep_view(),
            combined_data.deep_view() == tree_insert_all(
                old(combined_data).deep_view(),
                all.take(i as int),
            ),
            one_record_each(old(combined_data).deep_view()) ==> one_record_each(
                combined_data.deep_view(),
            ),
        decreases votes@.len() - i,
    {
        proof {
            assert(all.take(i + 1).drop_last() == all.take(i as int));
            assert(all.take(i + 1).last() == votes@[i as int].deep_view());
        }
        let _ = insert_into_database(&votes[i], combined_data);
        i += 1;
    }
    assert(all.take(i as int) == all);
}

/// The vote that one recorded vote of the House becomes: none where the
/// legislator is missing; else the roll call as the path names it, date,
/// question and result from the description of the roll call, each `null`
/// where it is no text, and the legislator with a stand-in for each
/// missing field.
pub open spec fn house_vote(
    path: VotePathView,
    meta: VoteMetadataHouseView,
    record: RecordedVoteHouseView,
) -> Option<UnifiedVoteView> {
    match record.legislator {
        None => None,
        Some(legislator) => Some(
            UnifiedVoteView {
                congress_number: path.congress_number,
                chamber: path.chamber,
                session_number: path.session_number,
                rollcall_number: path.rollcall_number,
                vote_date: text_or_null(meta.action_date),
                vote_question: text_or_null(meta.vote_question),
                vote_result: text_or_null(meta.vote_result),
                legislator_id: text_or(legislator.name_id, "None"@),
                legislator_name: text_or(legislator.unaccented_name, "❓ Unknown"@),
                party: text_or(legislator.party, "None"@),
                state: text_or(legislator.state, "None"@),
                vote_cast: text_or(record.vote, "None"@),
            },
        ),
    }
}

/// The votes that the recorded votes of the House become, in order; those
/// without a legislator are left out.
pub open spec fn house_votes(
    path: VotePathView,
    meta: VoteMetadataHouseView,
    records: Seq<RecordedVoteHouseView>,
) -> Seq<UnifiedVoteView>
    decreases records.len(),
{
    if records.len() == 0 {
        Seq::empty()
    } else {
        let head = house_votes(path, meta, records.drop_last());
        match house_vote(path, meta, records.last()) {
            Some(vote) => head.push(vote),
            None => head,
        }
    }
}

/// How many recorded votes are left out for want of a legislator.
pub open spec fn house_left_out(records: Seq<RecordedVoteHouseView>) -> nat
    decreases records.len(),
{
    if records.len() == 0 {
        0
    } else {
        house_left_out(records.drop_last()) + if records.last().legislator is None {
            1nat
        } else {
            0nat
        }
    }
}

/// No more recorded votes are left out than there are.
pub proof fn lemma_house_left_out(records: Seq<RecordedVoteHouseView>)
    ensures
        house_left_out(records) <= records.len(),
    decreases records.len(),
{
    if records.len() > 0 {
        lemma_house_left_out(records.drop_last());
    }
}

/// The recorded votes of a House roll call; none where it has no vote data
/// or the vote data have no list.
pub open spec fn recorded_votes(vote: RollCallVoteHouseView) -> Seq<RecordedVoteHouseView> {
    match vote.vote_data {
        Some(data) => match data.recorded_vote {
            Some(list) => list,
            None => Seq::empty(),
        },
        None => Seq::empty(),
    }
}

/// What a roll call yields: its votes, how many entries were left out
/// because they name no legislator, and whether the part that holds the
/// entries was there at all.
#[derive(Debug)]
pub struct Extraction {
    pub votes: Vec<UnifiedVote>,
    /// Entries that were passed over because they name no legislator.
    pub left_out: usize,
    /// Whether the roll call came with its vote data (House) or its
    /// members (Senate).
    pub complete: bool,
}

/// The mathematical model of an `Extraction`.
pub struct ExtractionView {
    pub votes: Seq<UnifiedVoteView>,
    pub left_out: int,
    pub complete: bool,
}

impl DeepView for Extraction {
    type V = ExtractionView;

    open spec fn deep_view(&self) -> ExtractionView {
        ExtractionView {
            votes: self.votes.deep_view(),
            left_out: self.left_out as int,
            complete: self.complete,
        }
    }
}

/// What a House roll call yields.
pub open spec fn house_extraction(
    path: VotePathView,
    vote: RollCallVoteHouseView,
) -> ExtractionView {
    ExtractionView {
        votes: house_votes(path, vote.vote_metadata, recorded_votes(vote)),
        left_out: house_left_out(recorded_votes(vote)) as int,
        complete: vote.vote_data is Some,
    }
}

/// The votes of a House roll call.
pub fn house_unified_votes(path: &VotePath, vote: &RollCallVoteHouse) -> (r: Extraction)
    ensures
        r.deep_view() == house_extraction(path.deep_view(), vote.deep_view()),
{
    let mut votes: Vec<UnifiedVote> = Vec::new();
    let mut left_out: usize = 0;
    assert(votes.deep_view() =~= Seq::empty());
    let complete = vote.vote_data.is_some();
    let empty: Vec<RecordedVoteHouse> = Vec::new();
    assert(empty.deep_view() =~= Seq::empty());
    let records: &Vec<RecordedVoteHouse> = match &vote.vote_data {
        Some(data) => match &data.recorded_vote {
            Some(list) => list,
            None => &empty,
        },
        None => &empty,
    };
    let ghost all = recorded_votes(vote.deep_view());
    let ghost meta = vote.deep_view().vote_metadata;
    assert(all == records.deep_view());
    assert(all.take(0) =~= Seq::<RecordedVoteHouseView>::empty());
    let mut i: usize = 0;
    while i < records.len()
        invariant
            i <= records@.len(),
            all == records.deep_view(),
            meta == vote.deep_view().vote_metadata,
            votes.deep_view() == house_votes(path.deep_view(), meta, all.take(i as int)),
            left_out == house_left_out(all.take(i as int)),
        decreases records@.len() - i,
    {
        let record = &records[i];
        proof {
            assert(all.take(i + 1).drop_last() == all.take(i as int));
            assert(all.take(i + 1).last() == record.deep_view());
            lemma_house_left_out(all.take(i + 1));
        }
        match &record.legislator {
            None => {
                left_out += 1;
            },
            Some(legislator) => {
                let ghost before = votes.deep_view();
                let unified = UnifiedVote {
                    congress_number: path.congress_number,
                    chamber: path.chamber.clone(),
                    session_number: path.session_number,
                    rollcall_number: path.rollcall_number,
                    vote_date: response_text(&vote.vote_metadata.action_date),
                    vote_question: response_text(&vote.vote_metadata.vote_question),
                    vote_result: response_text(&vote.vote_metadata.vote_result),
                    legislator_id: text_or_else(&legislator.name_id, "None"),
                    legislator_name: text_or_else(&legislator.unaccented_name, "❓ Unknown"),
                    party: text_or_else(&legislator.party, "None"),
                    state: text_or_else(&legislator.state, "None"),
                    vote_cast: text_or_else(&record.vote, "None"),
                };
                let ghost added = unified.deep_view();
                votes.push(unified);
                assert(votes.deep_view() =~= before.push(added));
            },
        }
        i += 1;
    }
    assert(all.take(i as int) == all);
    Extraction { votes, left_out, complete }
}

/// The vote that one senator's entry becomes: congress, session and roll
/// call number as the document states them, each from the path where the
/// document states none that is a number of its width; the date and the
/// question `null` where they are no text; `None` for each missing field
/// of the senator. The vote cast is the name of the cast, `None` where the
/// entry has no vote.
pub open spec fn senate_vote(
    path: VotePathView,
    vote: RollCallVoteSenateView,
    member: MemberSenateView,
) -> UnifiedVoteView {
    UnifiedVoteView {
        congress_number: number_or(vote.congress, u16::MAX as nat, path.congress_number),
        chamber: path.chamber,
        session_number: number_or(vote.session, u8::MAX as nat, path.session_number),
        rollcall_number: match vote.vote_number {
            Some(text) => number_or(text, u32::MAX as nat, path.rollcall_number),
            None => path.rollcall_number,
        },
        vote_date: text_or_null(vote.vote_date),
        vote_question: text_or_null(vote.vote_question_text),
        vote_result: text_or(vote.vote_result, "None"@),
        legislator_id: text_or(member.lis_member_id, "None"@),
        legislator_name: text_or(member.member_full, "None"@),
        party: text_or(member.party, "None"@),
        state: text_or(member.state, "None"@),
        vote_cast: match member.vote_cast {
            Some(cast) => cast_of(Some(cast)).name->0,
            None => "None"@,
        },
    }
}

/// The senators' entries of a roll call; none where it has no members or
/// the members have no list.
pub open spec fn senate_entries(vote: RollCallVoteSenateView) -> Seq<MemberSenateView> {
    match vote.members {
        Some(members) => match members.member {
            Some(list) => list,
            None => Seq::empty(),
        },
        None => Seq::empty(),
    }
}

/// The votes of a Senate roll call, one for each senator's entry, in order.
pub open spec fn senate_votes(path: VotePathView, vote: RollCallVoteSenateView) -> Seq<
    UnifiedVoteView,
> {
    Seq::new(
        senate_entries(vote).len(),
        |i: int| senate_vote(path, vote, senate_entries(vote)[i]),
    )
}

/// What a Senate roll call yields. No entry of the Senate is left out.
pub open spec fn senate_extraction(
    path: VotePathView,
    vote: RollCallVoteSenateView,
) -> ExtractionView {
    ExtractionView { votes: senate_votes(path, vote), left_out: 0, complete: vote.members is Some }
}

/// The votes of a Senate roll call.
pub fn senate_unified_votes(path: &VotePath, vote: &RollCallVoteSenate) -> (r: Extraction)
    ensures
        r.deep_view() == senate_extraction(path.deep_view(), vote.deep_view()),
{
    let congress_number = match parse_bounded(vote.congress.as_str(), 0xffff) {
        Some(n) => n as u16,
        None => path.congress_number,
    };
    let session_number = match parse_bounded(vote.session.as_str(), 0xff) {
        Some(n) => n as u8,
        None => path.session_number,
    };
    let rollcall_number = match &vote.vote_number {
        Some(text) => match parse_bounded(text.as_str(), 0xffff_ffff) {
            Some(n) => n as u32,
            None => path.rollcall_number,
        },
        None => path.rollcall_number,
    };
    let mut votes: Vec<UnifiedVote> = Vec::new();
    let complete = vote.members.is_some();
    let empty: Vec<MemberSenate> = Vec::new();
    assert(empty.deep_view() =~= Seq::empty());
    let entries: &Vec<MemberSenate> = match &vote.members {
        Some(members) => match &members.member {
            Some(list) => list,
            None => &empty,
        },
        None => &empty,
    };
    let ghost all = senate_entries(vote.deep_view());
    assert(all == entries.deep_view());
    let mut i: usize = 0;
    while i < entries.len()
        invariant
            i <= entries@.len(),
            all == entries.deep_view(),
            all == senate_entries(vote.deep_view()),
            congress_number == number_or(
                vote.deep_view().congress,
                u16::MAX as nat,
                path.congress_number as int,
            ),
            session_number == number_or(
                vote.deep_view().session,
                u8::MAX as nat,
                path.session_number as int,
            ),
            rollcall_number == senate_vote(
                path.deep_view(),
                vote.deep_view(),
                MemberSenate::default_view(),
            ).rollcall_number,
            votes@.len() == i,
            forall|j: int|
                0 <= j < i ==> (#[trigger] votes@[j]).deep_view() == senate_vote(
                    path.deep_view(),
                    vote.deep_view(),
                    all[j],
                ),
        decreases entries@.len() - i,
    {
        let member = &entries[i];
        assert(all[i as int] == member.deep_view());
        let vote_cast = match &member.vote_cast {
            Some(_) => {
                let cast = vote_cast_of(&member.vote_cast);
                match cast.name {
                    Some(name) => name,
                    None => String::from_str("null"),
                }
            },
            None => String::from_str("None"),
        };
        let unified = UnifiedVote {
            congress_number,
            chamber: path.chamber.clone(),
            session_number,
            rollcall_number,
            vote_date: response_text(&vote.vote_date),
            vote_question: response_text(&vote.vote_question_text),
            vote_result: text_or_else(&vote.vote_result, "None"),
            legislator_id: text_or_else(&member.lis_member_id, "None"),
            legislator_name: text_or_else(&member.member_full, "None"),
            party: text_or_else(&member.party, "None"),
            state: text_or_else(&member.state, "None"),
            vote_cast,
        };
        votes.push(unified);
        i += 1;
    }
    assert(votes.deep_view() =~= senate_votes(path.deep_view(), vote.deep_view()));
    Extraction { votes, left_out: 0, complete }
}

/// A file of either chamber.
#[derive(Debug)]
pub enum VoteFile {
    HouseFile(HouseFile),
    SenateFile(SenateFile),
}

/// The mathematical model of a `VoteFile`.
pub enum VoteFileView {
    HouseFile(HouseFileView),
    SenateFile(SenateFileView),
}

impl DeepView for VoteFile {
    type V = VoteFileView;

    open spec fn deep_view(&self) -> VoteFileView {
        match self {
            VoteFile::HouseFile(file) => VoteFileView::HouseFile(file.deep_view()),
            VoteFile::SenateFile(file) => VoteFileView::SenateFile(file.deep_view()),
        }
    }
}

/// The file that a document holds where the chamber is not known: a file
/// of the House where it has the shape of one, else a file of the Senate.
pub open spec fn decode_vote_file(document: JsonView) -> Option<VoteFileView> {
    match decode_house_file(document) {
        Some(file) => Some(VoteFileView::HouseFile(file)),
        None => match decode_senate_file(document) {
            Some(file) => Some(VoteFileView::SenateFile(file)),
            None => None,
        },
    }
}

impl VoteFile {
    /// Decodes a document of either chamber.
    pub fn from_json(document: &JsonValue) -> (r: Option<VoteFile>)
        ensures
            r.deep_view() == decode_vote_file(document.deep_view()),
    {
        match HouseFile::from_json(document) {
            Some(file) => Some(VoteFile::HouseFile(file)),
            None => match SenateFile::from_json(document) {
                Some(file) => Some(VoteFile::SenateFile(file)),
                None => None,
            },
        }
    }
}

/// Why a file yields no votes.
#[derive(Debug, Clone, Copy, PartialEq, Eq, Structural)]
pub enum SkipReason {
    /// The place of the file says nothing about a roll call.
    Path(PathError),
    /// The chamber in the path is neither `house` nor `senate`.
    UnknownChamber,
    /// The file holds no JSON document.
    Malformed,
    /// The document does not have the shape that its chamber publishes.
    Mismatch,
}

/// What a document of a chamber yields.
pub open spec fn document_votes(path: VotePathView, document: JsonView) -> Result<
    ExtractionView,
    SkipReason,
> {
    if path.chamber == "house"@ {
        match decode_house_file(document) {
            Some(file) => Ok(house_extraction(path, file.rollcall_vote)),
            None => Err(SkipReason::Mismatch),
        }
    } else if path.chamber == "senate"@ {
        match decode_senate_file(document) {
            Some(file) => Ok(senate_extraction(path, file.roll_call_vote)),
            None => Err(SkipReason::Mismatch),
        }
    } else {
        Err(SkipReason::UnknownChamber)
    }
}

/// The model of an extraction, or of why there is none.
pub open spec fn extraction_result(r: Result<Extraction, SkipReason>) -> Result<
    ExtractionView,
    SkipReason,
> {
    match r {
        Ok(e) => Ok(e.deep_view()),
        Err(e) => Err(e),
    }
}

/// Extracts the votes of a document, by the chamber that the path names.
pub fn votes_of_document(path: &VotePath, document: &JsonValue) -> (r: Result<
    Extraction,
    SkipReason,
>)
    ensures
        extraction_result(r) == document_votes(path.deep_view(), document.deep_view()),
{
    if text_eq(path.chamber.as_str(), "house") {
        match HouseFile::from_json(document) {
            Some(file) => Ok(house_unified_votes(path, &file.rollcall_vote)),
            None => Err(SkipReason::Mismatch),
        }
    } else if text_eq(path.chamber.as_str(), "senate") {
        match SenateFile::from_json(document) {
            Some(file) => Ok(senate_unified_votes(path, &file.roll_call_vote)),
            None => Err(SkipReason::Mismatch),
        }
    } else {
        Err(SkipReason::UnknownChamber)
    }
}

/// What a file yields, from its path and from the document that its text
/// holds, if it holds one. The path is looked at first, then the chamber,
/// then the text.
pub open spec fn file_votes(path: Seq<char>, document: Option<JsonView>) -> Result<
    ExtractionView,
    SkipReason,
> {
    match vote_path(path) {
        Err(e) => Err(SkipReason::Path(e)),
        Ok(place) => if place.chamber != "house"@ && place.chamber != "senate"@ {
            Err(SkipReason::UnknownChamber)
        } else {
            match document {
                None => Err(SkipReason::Malformed),
                Some(d) => document_votes(place, d),
            }
        },
    }
}

/// Why a file was passed over, with what the parser said where the file
/// holds no JSON document.
#[derive(Debug)]
pub struct Skipped {
    pub reason: SkipReason,
    pub detail: String,
}

/// What a file added to the tree.
#[derive(Debug, Clone, Copy, PartialEq, Eq, Structural)]
pub struct FileReport {
    /// How many votes were filed.
    pub votes: usize,
    /// Entries that were passed over because they name no legislator.
    pub left_out: usize,
    /// Whether the roll call came with its vote data or its members.
    pub complete: bool,
}

/// Files the votes of one file in the tree. A file that is passed over
/// leaves the tree as it is.
pub fn process_vote_file(path: &str, text: &str, combined_data: &mut CombinedData) -> (r: Result<
    FileReport,
    Skipped,
>)
    ensures
        match file_votes(path@, json_document(text@)) {
            Ok(found) => r matches Ok(report) && report.votes == found.votes.len()
                && report.left_out == found.left_out && report.complete == found.complete
                && final(combined_data).deep_view() == tree_insert_all(
                old(combined_data).deep_view(),
                found.votes,
            ),
            Err(reason) => r matches Err(skipped) && skipped.reason == reason && *final(combined_data)
                == *old(combined_data),
        },
        one_record_each(old(combined_data).deep_view()) ==> one_record_each(
            final(combined_data).deep_view(),
        ),
{
    let place = match parse_vote_path(path) {
        Ok(place) => place,
        Err(e) => {
            return Err(Skipped { reason: SkipReason::Path(e), detail: String::new() });
        },
    };
    if !text_eq(place.chamber.as_str(), "house") && !text_eq(place.chamber.as_str(), "senate") {
        return Err(Skipped { reason: SkipReason::UnknownChamber, detail: String::new() });
    }
    let document = match parse(text) {
        Ok(document) => document,
        Err(e) => {
            return Err(Skipped { reason: SkipReason::Malformed, detail: e.message });
        },
    };
    match votes_of_document(&place, &document) {
        Ok(extraction) => {
            insert_all_into_database(&extraction.votes, combined_data);
            Ok(
                FileReport {
                    votes: extraction.votes.len(),
                    left_out: extraction.left_out,
                    complete: extraction.complete,
                },
            )
        },
        Err(reason) => Err(Skipped { reason, detail: String::new() }),
    }
}

} // verus!
