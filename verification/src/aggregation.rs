//! What filing votes does to the aggregation tree, stated over its model:
//! one record for each roll call, holding its votes in the order of filing.
use crate::json_master::{
    chamber_of_tree, congress_of, lemma_position, lemma_position_is, position, session_insert,
    session_of, tree_insert, tree_insert_all,
};
use crate::responses::{CombinedDataView, RollCallDataView, SessionDataView, UnifiedVoteView};
use crate::text::lowercase;
use vstd::prelude::*;

verus! {

/// The session that the tree files under a chamber name, a congress and a
/// session number; empty where there is none.
pub open spec fn session_at(
    tree: CombinedDataView,
    chamber: Seq<char>,
    congress: int,
    session: int,
) -> SessionDataView {
    session_of(congress_of(chamber_of_tree(tree, chamber), congress), session)
}

/// How many records of a session bear the given roll call number.
pub open spec fn records_with(rollcalls: Seq<RollCallDataView>, number: int) -> nat
    decreases rollcalls.len(),
{
    if rollcalls.len() == 0 {
        0
    } else {
        records_with(rollcalls.drop_last(), number) + if rollcalls.last().rollcall_number
            == number {
            1nat
        } else {
            0nat
        }
    }
}

/// No two records of a session bear the same roll call number.
pub open spec fn distinct_numbers(rollcalls: Seq<RollCallDataView>) -> bool {
    forall|i: int, j: int|
        0 <= i < j < rollcalls.len() ==> (#[trigger] rollcalls[i]).rollcall_number != (
        #[trigger] rollcalls[j]).rollcall_number
}

/// Every session of the tree holds at most one record for each roll call.
pub open spec fn one_record_each(tree: CombinedDataView) -> bool {
    forall|chamber: Seq<char>, congress: int, session: int|
        distinct_numbers((#[trigger] session_at(tree, chamber, congress, session)).rollcalls)
}

/// The votes that a session holds for a roll call: those of its first
/// record, none where it has no record.
pub open spec fn votes_of(session: SessionDataView, number: int) -> Seq<UnifiedVoteView> {
    let p = position(session.rollcalls, number);
    if p < session.rollcalls.len() {
        session.rollcalls[p].vote_casts
    } else {
        Seq::empty()
    }
}

/// The tree that holds nothing.
pub open spec fn empty_tree() -> CombinedDataView {
    CombinedDataView { chambers: Map::empty() }
}

/// The empty tree holds at most one record for each roll call.
pub proof fn lemma_empty_tree()
    ensures
        one_record_each(empty_tree()),
{
}

/// A number that no record bears is counted zero times.
pub proof fn lemma_count_none(rollcalls: Seq<RollCallDataView>, number: int)
    requires
        forall|j: int| 0 <= j < rollcalls.len() ==> (#[trigger] rollcalls[j]).rollcall_number
            != number,
    ensures
        records_with(rollcalls, number) == 0,
    decreases rollcalls.len(),
{
    if rollcalls.len() > 0 {
        let head = rollcalls.drop_last();
        assert forall|j: int| 0 <= j < head.len() implies (#[trigger] head[j]).rollcall_number
            != number by {
            assert(head[j] == rollcalls[j]);
        }
        lemma_count_none(head, number);
        assert(rollcalls.last() == rollcalls[rollcalls.len() - 1]);
    }
}

/// Where no two records bear one number, a number that a record bears is
/// counted once.
pub proof fn lemma_count_one(rollcalls: Seq<RollCallDataView>, number: int, p: int)
    requires
        distinct_numbers(rollcalls),
        0 <= p < rollcalls.len(),
        rollcalls[p].rollcall_number == number,
    ensures
        records_with(rollcalls, number) == 1,
    decreases rollcalls.len(),
{
    let head = rollcalls.drop_last();
    let last = rollcalls.len() - 1;
    assert(rollcalls.last() == rollcalls[last]);
    if p == last {
        assert forall|j: int| 0 <= j < head.len() implies (#[trigger] head[j]).rollcall_number
            != number by {
            assert(head[j] == rollcalls[j]);
            assert(rollcalls[j].rollcall_number != rollcalls[last].rollcall_number);
        }
        lemma_count_none(head, number);
    } else {
        assert(rollcalls[p].rollcall_number != rollcalls[last].rollcall_number);
        assert forall|i: int, j: int| 0 <= i < j < head.len() implies (
        #[trigger] head[i]).rollcall_number != (#[trigger] head[j]).rollcall_number by {
            assert(head[i] == rollcalls[i]);
            assert(head[j] == rollcalls[j]);
        }
        assert(head[p] == rollcalls[p]);
        lemma_count_one(head, number, p);
    }
}

/// What filing a vote does to a session: the votes of its roll call grow by
/// it at their end, the votes of every other roll call stay as they are, and
/// a session with at most one record for each roll call stays one, with
/// exactly one record for the roll call of the vote.
pub proof fn lemma_session_insert(session: SessionDataView, vote: UnifiedVoteView)
    ensures
        votes_of(session_insert(session, vote), vote.rollcall_number) == votes_of(
            session,
            vote.rollcall_number,
        ).push(vote),
        forall|other: int|
            other != vote.rollcall_number ==> #[trigger] votes_of(
                session_insert(session, vote),
                other,
            ) == votes_of(session, other),
        forall|other: int|
            other != vote.rollcall_number ==> #[trigger] records_with(
                session_insert(session, vote).rollcalls,
                other,
            ) == records_with(session.rollcalls, other),
        distinct_numbers(session.rollcalls) ==> distinct_numbers(
            session_insert(session, vote).rollcalls,
        ),
        distinct_numbers(session.rollcalls) ==> records_with(
            session_insert(session, vote).rollcalls,
            vote.rollcall_number,
        ) == 1,
{
    let before = session.rollcalls;
    let after = session_insert(session, vote).rollcalls;
    let n = vote.rollcall_number;
    let p = position(before, n);
    lemma_position(before, n);
    // every record keeps its number, and the records of other roll calls keep everything
    assert forall|j: int| 0 <= j < before.len() implies (#[trigger] after[j]).rollcall_number
        == before[j].rollcall_number && (j != p ==> after[j] == before[j]) by {}
    assert forall|j: int| 0 <= j < p implies (#[trigger] after[j]).rollcall_number != n by {
        assert(before[j].rollcall_number != n);
    }
    lemma_position_is(after, n, p);
    assert(votes_of(session_insert(session, vote), n) =~= votes_of(session, n).push(vote));
    assert forall|other: int| other != n implies #[trigger] votes_of(
        session_insert(session, vote),
        other,
    ) == votes_of(session, other) by {
        let q = position(before, other);
        lemma_position(before, other);
        assert forall|j: int| 0 <= j < q implies (#[trigger] after[j]).rollcall_number
            != other by {
            assert(before[j].rollcall_number != other);
        }
        if q < before.len() {
            assert(q != p);
            assert(after[q] == before[q]);
            lemma_position_is(after, other, q);
        } else {
            if p == before.len() {
                assert(after[p].rollcall_number == n);
                assert forall|j: int| 0 <= j < after.len() implies (
                #[trigger] after[j]).rollcall_number != other by {
                    if j < before.len() {
                        assert(before[j].rollcall_number != other);
                    }
                }
            }
            lemma_position_is(after, other, after.len() as int);
        }
    }
    assert forall|other: int| other != n implies #[trigger] records_with(after, other)
        == records_with(before, other) by {
        lemma_count_same(before, after, other);
    }
    if distinct_numbers(before) {
        assert forall|i: int, j: int| 0 <= i < j < after.len() implies (
        #[trigger] after[i]).rollcall_number != (#[trigger] after[j]).rollcall_number by {
            if j < before.len() {
                assert(before[i].rollcall_number != before[j].rollcall_number);
            } else {
                assert(before[i].rollcall_number != n);
            }
        }
        lemma_count_one(after, n, p);
    }
}

/// Two sessions whose records bear the same numbers up to the length of the
/// first, the second having at most one record more, and that one with
/// another number, count a number alike.
pub proof fn lemma_count_same(
    before: Seq<RollCallDataView>,
    after: Seq<RollCallDataView>,
    number: int,
)
    requires
        before.len() <= after.len() <= before.len() + 1,
        forall|j: int|
            0 <= j < before.len() ==> (#[trigger] after[j]).rollcall_number
                == before[j].rollcall_number,
        after.len() > before.len() ==> after.last().rollcall_number != number,
    ensures
        records_with(after, number) == records_with(before, number),
    decreases after.len(),
{
    if after.len() > before.len() {
        let head = after.drop_last();
        assert forall|j: int| 0 <= j < before.len() implies (#[trigger] head[j]).rollcall_number
            == before[j].rollcall_number by {
            assert(head[j] == after[j]);
        }
        lemma_count_same(before, head, number);
    } else if before.len() > 0 {
        let a = after.drop_last();
        let b = before.drop_last();
        assert forall|j: int| 0 <= j < b.len() implies (#[trigger] a[j]).rollcall_number
            == b[j].rollcall_number by {
            assert(a[j] == after[j]);
            assert(b[j] == before[j]);
        }
        lemma_count_same(b, a, number);
        assert(after.last() == after[after.len() - 1]);
        assert(before.last() == before[before.len() - 1]);
    }
}

/// What filing a vote does to the tree: the session of the vote is the
/// session it was with the vote filed in it, and every other session is
/// what it was.
pub proof fn lemma_tree_insert(tree: CombinedDataView, vote: UnifiedVoteView)
    ensures
        session_at(
            tree_insert(tree, vote),
            lowercase(vote.chamber),
            vote.congress_number,
            vote.session_number,
        ) == session_insert(
            session_at(tree, lowercase(vote.chamber), vote.congress_number, vote.session_number),
            vote,
        ),
        forall|chamber: Seq<char>, congress: int, session: int|
            !(chamber == lowercase(vote.chamber) && congress == vote.congress_number && session
                == vote.session_number) ==> #[trigger] session_at(
                tree_insert(tree, vote),
                chamber,
                congress,
                session,
            ) == session_at(tree, chamber, congress, session),
        one_record_each(tree) ==> one_record_each(tree_insert(tree, vote)),
{
    let name = lowercase(vote.chamber);
    let after = tree_insert(tree, vote);
    assert forall|chamber: Seq<char>, congress: int, session: int|
        !(chamber == name && congress == vote.congress_number && session
            == vote.session_number) implies #[trigger] session_at(
        after,
        chamber,
        congress,
        session,
    ) == session_at(tree, chamber, congress, session) by {}
    if one_record_each(tree) {
        assert forall|chamber: Seq<char>, congress: int, session: int|
            distinct_numbers(
                (#[trigger] session_at(after, chamber, congress, session)).rollcalls,
            ) by {
            if chamber == name && congress == vote.congress_number && session
                == vote.session_number {
                lemma_session_insert(session_at(tree, chamber, congress, session), vote);
            } else {
                assert(session_at(after, chamber, congress, session) == session_at(
                    tree,
                    chamber,
                    congress,
                    session,
                ));
            }
        }
    }
}

/// Two votes for one roll call are of one chamber, congress, session and
/// roll call number, the chamber taken in lower case.
pub open spec fn same_roll_call(a: UnifiedVoteView, b: UnifiedVoteView) -> bool {
    &&& lowercase(a.chamber) == lowercase(b.chamber)
    &&& a.congress_number == b.congress_number
    &&& a.session_number == b.session_number
    &&& a.rollcall_number == b.rollcall_number
}

/// After two votes for one roll call are filed, the tree holds exactly one
/// record for that roll call, and the record holds the votes that were there
/// before and then the two, in the order of filing. Where none were there
/// before, it holds exactly the two.
pub proof fn lemma_two_votes_one_record(
    tree: CombinedDataView,
    first: UnifiedVoteView,
    second: UnifiedVoteView,
)
    requires
        one_record_each(tree),
        same_roll_call(first, second),
    ensures
        ({
            let after = tree_insert(tree_insert(tree, first), second);
            let was = session_at(
                tree,
                lowercase(first.chamber),
                first.congress_number,
                first.session_number,
            );
            let now = session_at(
                after,
                lowercase(first.chamber),
                first.congress_number,
                first.session_number,
            );
            &&& one_record_each(after)
            &&& records_with(now.rollcalls, first.rollcall_number) == 1
            &&& votes_of(now, first.rollcall_number) == votes_of(was, first.rollcall_number).push(
                first,
            ).push(second)
            &&& records_with(was.rollcalls, first.rollcall_number) == 0 ==> votes_of(
                now,
                first.rollcall_number,
            ) == seq![first, second]
        }),
{
    let name = lowercase(first.chamber);
    let mid = tree_insert(tree, first);
    let after = tree_insert(mid, second);
    let was = session_at(tree, name, first.congress_number, first.session_number);
    let then = session_at(mid, name, first.congress_number, first.session_number);
    lemma_tree_insert(tree, first);
    lemma_tree_insert(mid, second);
    lemma_session_insert(was, first);
    lemma_session_insert(then, second);
    assert(distinct_numbers(then.rollcalls));
    if records_with(was.rollcalls, first.rollcall_number) == 0 {
        let p = position(was.rollcalls, first.rollcall_number);
        lemma_position(was.rollcalls, first.rollcall_number);
        if p < was.rollcalls.len() {
            lemma_count_one(was.rollcalls, first.rollcall_number, p);
        }
        assert(votes_of(was, first.rollcall_number).push(first).push(second) =~= seq![
            first,
            second,
        ]);
    }
}

/// After two votes of one session with different roll call numbers are
/// filed, the tree holds exactly one record for each of the two roll calls;
/// the one holds the first vote at the end of what was there, the other the
/// second, and neither holds the other's vote.
pub proof fn lemma_two_roll_calls_two_records(
    tree: CombinedDataView,
    first: UnifiedVoteView,
    second: UnifiedVoteView,
)
    requires
        one_record_each(tree),
        lowercase(first.chamber) == lowercase(second.chamber),
        first.congress_number == second.congress_number,
        first.session_number == second.session_number,
        first.rollcall_number != second.rollcall_number,
    ensures
        ({
            let after = tree_insert(tree_insert(tree, first), second);
            let was = session_at(
                tree,
                lowercase(first.chamber),
                first.congress_number,
                first.session_number,
            );
            let now = session_at(
                after,
                lowercase(first.chamber),
                first.congress_number,
                first.session_number,
            );
            &&& one_record_each(after)
            &&& records_with(now.rollcalls, first.rollcall_number) == 1
            &&& records_with(now.rollcalls, second.rollcall_number) == 1
            &&& votes_of(now, first.rollcall_number) == votes_of(was, first.rollcall_number).push(
                first,
            )
            &&& votes_of(now, second.rollcall_number) == votes_of(
                was,
                second.rollcall_number,
            ).push(second)
        }),
{
    let name = lowercase(first.chamber);
    let mid = tree_insert(tree, first);
    let was = session_at(tree, name, first.congress_number, first.session_number);
    let then = session_at(mid, name, first.congress_number, first.session_number);
    lemma_tree_insert(tree, first);
    lemma_tree_insert(mid, second);
    lemma_session_insert(was, first);
    lemma_session_insert(then, second);
    assert(distinct_numbers(then.rollcalls));
    assert(votes_of(session_insert(then, second), first.rollcall_number) == votes_of(
        then,
        first.rollcall_number,
    ));
    assert(records_with(session_insert(then, second).rollcalls, first.rollcall_number)
        == records_with(then.rollcalls, first.rollcall_number));
    assert(votes_of(then, second.rollcall_number) == votes_of(was, second.rollcall_number));
}

/// After any number of votes for one roll call are filed, the tree holds
/// the votes that were there before and then all of them, in the order of
/// filing, and where at least one was filed, in exactly one record.
pub proof fn lemma_votes_in_call_order(
    tree: CombinedDataView,
    votes: Seq<UnifiedVoteView>,
    key: UnifiedVoteView,
)
    requires
        one_record_each(tree),
        forall|i: int| 0 <= i < votes.len() ==> same_roll_call(key, #[trigger] votes[i]),
    ensures
        ({
            let after = tree_insert_all(tree, votes);
            let was = session_at(
                tree,
                lowercase(key.chamber),
                key.congress_number,
                key.session_number,
            );
            let now = session_at(
                after,
                lowercase(key.chamber),
                key.congress_number,
                key.session_number,
            );
            &&& one_record_each(after)
            &&& votes_of(now, key.rollcall_number) == votes_of(was, key.rollcall_number) + votes
            &&& votes.len() > 0 ==> records_with(now.rollcalls, key.rollcall_number) == 1
        }),
    decreases votes.len(),
{
    let name = lowercase(key.chamber);
    let was = session_at(tree, name, key.congress_number, key.session_number);
    if votes.len() == 0 {
        assert(votes_of(was, key.rollcall_number) + votes =~= votes_of(was, key.rollcall_number));
    } else {
        let head = votes.drop_last();
        let last = votes.last();
        assert forall|i: int| 0 <= i < head.len() implies same_roll_call(
            key,
            #[trigger] head[i],
        ) by {
            assert(head[i] == votes[i]);
        }
        lemma_votes_in_call_order(tree, head, key);
        let mid = tree_insert_all(tree, head);
        let then = session_at(mid, name, key.congress_number, key.session_number);
        assert(same_roll_call(key, votes[votes.len() - 1]));
        lemma_tree_insert(mid, last);
        lemma_session_insert(then, last);
        assert((votes_of(was, key.rollcall_number) + head).push(last) =~= votes_of(
            was,
            key.rollcall_number,
        ) + votes);
    }
}

} // verus!
