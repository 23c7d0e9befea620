//! The relational sink: content hashes, the rows that a roll call is stored
//! as, and the decisions of a run that stores many files in one transaction.
use crate::house::{decode_house_file, HouseFile};
use crate::json::{
    find_member, json_document, json_text, lemma_json_view, member, parse, write_compact,
    JsonValue, JsonView,
};
use crate::json_master::{SkipReason, Skipped};
use crate::paths::{dated_vote_path, parse_dated_vote_path, DatedVotePathView};
use crate::senate::{
    decode_senate_file, AmendmentSenate, AmendmentSenateView, DocumentSenate, DocumentSenateView,
    MemberSenate, MemberSenateView, SenateFile,
};
use crate::sql_house::{get_house_vote, house_info, HouseInfo, HouseInfoView};
use crate::sql_senate::{
    count_unreadable, get_senate_vote, senate_info, unreadable_counts, CongressionalMember,
    CongressionalMemberView, SenateInfo, SenateInfoView,
};
use crate::text::{
    hex_lower, hex_text, whitespace, leading_whitespace, lemma_leading_whitespace_bound,
    lemma_leading_whitespace_is, lemma_trailing_whitespace_bound, lemma_trailing_whitespace_is,
    lowercase, text_eq, trailing_whitespace, trim, trimmed,
};
use sha2::Digest;
use vstd::prelude::*;
use vstd::string::*;
use vstd::utf8::encode_utf8;

verus! {

/// The SHA-256 digest of a byte string.
pub uninterp spec fn sha256(data: Seq<u8>) -> Seq<u8>;

/// `sha2::Sha256::digest`.
///
/// Trusted: the digest is a function of the bytes alone.
#[verifier::external_body]
fn sha256_digest(data: &[u8]) -> (r: Vec<u8>)
    ensures
        r@ == sha256(data@),
{
    sha2::Sha256::digest(data).to_vec()
}

/// The digest of a text, in lowercase hexadecimal notation.
pub open spec fn text_hash(data: Seq<char>) -> Seq<char> {
    hex_lower(sha256(encode_utf8(data)))
}

/// The SHA-256 digest of `data`, in lowercase hexadecimal notation.
pub fn generate_hash(data: &str) -> (hash: String)
    ensures
        hash@ == text_hash(data@),
{
    let digest = sha256_digest(data.as_bytes());
    hex_text(&digest)
}

/// What is hashed for a legislator: the last name without surrounding
/// whitespace and in lower case, then party and state as they are given.
pub open spec fn identity_key(
    last_name: Seq<char>,
    party: Seq<char>,
    state: Seq<char>,
) -> JsonView {
    JsonView::Array(
        seq![
            JsonView::Text(lowercase(trimmed(last_name))),
            JsonView::Text(party),
            JsonView::Text(state),
        ],
    )
}

/// The identifier generated for a legislator.
pub open spec fn identity_hash(last_name: Seq<char>, party: Seq<char>, state: Seq<char>) -> Seq<
    char,
> {
    text_hash(json_text(identity_key(last_name, party, state)))
}

/// The identifier generated for a legislator from last name, party and state.
pub fn member_hash(last_name: &str, party: &str, state: &str) -> (hash: String)
    ensures
        hash@ == identity_hash(last_name@, party@, state@),
{
    let name = trim(last_name).as_str().to_lowercase();
    let mut parts: Vec<JsonValue> = Vec::new();
    parts.push(JsonValue::Text(name));
    parts.push(JsonValue::Text(String::from_str(party)));
    parts.push(JsonValue::Text(String::from_str(state)));
    let key = JsonValue::Array(parts);
    assert(key.deep_view() == identity_key(last_name@, party@, state@)) by {
        let got = key.deep_view()->Array_0;
        let want = identity_key(last_name@, party@, state@)->Array_0;
        assert(got.len() == 3);
        assert(got[0] == parts@[0].deep_view());
        assert(got[1] == parts@[1].deep_view());
        assert(got[2] == parts@[2].deep_view());
        assert(got =~= want);
    }
    let text = write_compact(&key);
    generate_hash(text.as_str())
}

/// Every character of `s` is whitespace.
pub open spec fn all_whitespace(s: Seq<char>) -> bool {
    forall|i: int| 0 <= i < s.len() ==> whitespace(#[trigger] s[i])
}

/// Whitespace around a text does not change what trimming leaves of it.
pub proof fn lemma_trimmed_ignores_padding(before: Seq<char>, s: Seq<char>, after: Seq<char>)
    requires
        all_whitespace(before),
        all_whitespace(after),
    ensures
        trimmed(before + s + after) == trimmed(s),
{
    let t = before + s + after;
    let lead = leading_whitespace(s);
    lemma_leading_whitespace_bound(s);
    if lead == s.len() {
        assert forall|i: int| 0 <= i < t.len() implies whitespace(#[trigger] t[i]) by {
            if i < before.len() {
                assert(t[i] == before[i]);
            } else if i < before.len() + s.len() {
                assert(t[i] == s[i - before.len()]);
            } else {
                assert(t[i] == after[i - before.len() - s.len()]);
            }
        }
        lemma_leading_whitespace_is(t, t.len());
        assert(trimmed(t) =~= Seq::<char>::empty());
        assert(trimmed(s) =~= Seq::<char>::empty());
    } else {
        let n = before.len() + lead;
        assert forall|i: int| 0 <= i < n implies whitespace(#[trigger] t[i]) by {
            if i < before.len() {
                assert(t[i] == before[i]);
            } else {
                assert(t[i] == s[i - before.len()]);
            }
        }
        assert(t[n as int] == s[lead as int]);
        lemma_leading_whitespace_is(t, n);
        let tail_s = s.skip(lead as int);
        let tail_t = t.skip(n as int);
        assert(tail_t =~= tail_s + after);
        let trail = trailing_whitespace(tail_s);
        lemma_trailing_whitespace_bound(tail_s);
        assert(tail_s[0] == s[lead as int]);
        assert(trail < tail_s.len());
        let m = after.len() + trail;
        assert forall|i: int| tail_t.len() - m <= i < tail_t.len() implies whitespace(
            #[trigger] tail_t[i],
        ) by {
            if i < tail_s.len() {
                assert(tail_t[i] == tail_s[i]);
            } else {
                assert(tail_t[i] == after[i - tail_s.len()]);
            }
        }
        assert(tail_t[tail_t.len() - m - 1] == tail_s[tail_s.len() - trail - 1]);
        lemma_trailing_whitespace_is(tail_t, m);
        assert(trimmed(t) =~= trimmed(s));
    }
}

/// Two last names that differ only in letter case or in surrounding
/// whitespace, so that trimming and lowering makes them one, get the same
/// identifier with the same party and state.
pub proof fn lemma_identity_hash_normalizes(
    name_a: Seq<char>,
    name_b: Seq<char>,
    party: Seq<char>,
    state: Seq<char>,
)
    requires
        lowercase(trimmed(name_a)) == lowercase(trimmed(name_b)),
    ensures
        identity_hash(name_a, party, state) == identity_hash(name_b, party, state),
{
}

/// Whitespace around the last name does not change the identifier.
pub proof fn lemma_identity_hash_ignores_padding(
    before: Seq<char>,
    name: Seq<char>,
    after: Seq<char>,
    party: Seq<char>,
    state: Seq<char>,
)
    requires
        all_whitespace(before),
        all_whitespace(after),
    ensures
        identity_hash(before + name + after, party, state) == identity_hash(name, party, state),
{
    lemma_trimmed_ignores_padding(before, name, after);
}

/// What every stored row of a roll call is filed under.
#[derive(Debug)]
pub struct VoteKey {
    pub vote_hash: String,
    pub congress_number: u16,
    pub session_number: u8,
    pub rollcall_number: u32,
    pub chamber: String,
    pub year: u16,
}

/// The mathematical model of a `VoteKey`.
pub struct VoteKeyView {
    pub vote_hash: Seq<char>,
    pub congress_number: int,
    pub session_number: int,
    pub rollcall_number: int,
    pub chamber: Seq<char>,
    pub year: int,
}

impl DeepView for VoteKey {
    type V = VoteKeyView;

    open spec fn deep_view(&self) -> VoteKeyView {
        VoteKeyView {
            vote_hash: self.vote_hash@,
            congress_number: self.congress_number as int,
            session_number: self.session_number as int,
            rollcall_number: self.rollcall_number as int,
            chamber: self.chamber@,
            year: self.year as int,
        }
    }
}

/// The row that holds how a Senate roll call was counted.
#[derive(Debug)]
pub struct SenateCountRow {
    pub key: VoteKey,
    pub yay: u32,
    pub nay: u32,
    pub present: u32,
    pub absent: u32,
    pub tie_breaker_name: String,
    pub tie_breaker_paired: String,
}

/// The mathematical model of a `SenateCountRow`.
pub struct SenateCountRowView {
    pub key: VoteKeyView,
    pub yay: int,
    pub nay: int,
    pub present: int,
    pub absent: int,
    pub tie_breaker_name: Seq<char>,
    pub tie_breaker_paired: Seq<char>,
}

impl DeepView for SenateCountRow {
    type V = SenateCountRowView;

    open spec fn deep_view(&self) -> SenateCountRowView {
        SenateCountRowView {
            key: self.key.deep_view(),
            yay: self.yay as int,
            nay: self.nay as int,
            present: self.present as int,
            absent: self.absent as int,
            tie_breaker_name: self.tie_breaker_name@,
            tie_breaker_paired: self.tie_breaker_paired@,
        }
    }
}

/// The row that holds what a Senate roll call was about.
#[derive(Debug)]
pub struct SenateMetadataRow {
    pub key: VoteKey,
    pub vote_date: String,
    pub vote_modify_date: String,
    pub vote_question: String,
    pub vote_question_text: String,
    pub vote_document_text: String,
    pub vote_result: String,
    pub vote_title: String,
    pub documents: Vec<DocumentSenate>,
    pub amendments: Vec<AmendmentSenate>,
    pub majority_requirement: String,
}

/// The mathematical model of a `SenateMetadataRow`.
pub struct SenateMetadataRowView {
    pub key: VoteKeyView,
    pub vote_date: Seq<char>,
    pub vote_modify_date: Seq<char>,
    pub vote_question: Seq<char>,
    pub vote_question_text: Seq<char>,
    pub vote_document_text: Seq<char>,
    pub vote_result: Seq<char>,
    pub vote_title: Seq<char>,
    pub documents: Seq<DocumentSenateView>,
    pub amendments: Seq<AmendmentSenateView>,
    pub majority_requirement: Seq<char>,
}

impl DeepView for SenateMetadataRow {
    type V = SenateMetadataRowView;

    open spec fn deep_view(&self) -> SenateMetadataRowView {
        SenateMetadataRowView {
            key: self.key.deep_view(),
            vote_date: self.vote_date@,
            vote_modify_date: self.vote_modify_date@,
            vote_question: self.vote_question@,
            vote_question_text: self.vote_question_text@,
            vote_document_text: self.vote_document_text@,
            vote_result: self.vote_result@,
            vote_title: self.vote_title@,
            documents: self.documents.deep_view(),
            amendments: self.amendments.deep_view(),
            majority_requirement: self.majority_requirement@,
        }
    }
}

/// The row that holds the senators of a roll call, in both forms.
#[derive(Debug)]
pub struct SenateMemberRow {
    pub key: VoteKey,
    pub members_as_is: Vec<MemberSenate>,
    pub members_to_gen: Vec<CongressionalMember>,
}

/// The mathematical model of a `SenateMemberRow`.
pub struct SenateMemberRowView {
    pub key: VoteKeyView,
    pub members_as_is: Seq<MemberSenateView>,
    pub members_to_gen: Seq<CongressionalMemberView>,
}

impl DeepView for SenateMemberRow {
    type V = SenateMemberRowView;

    open spec fn deep_view(&self) -> SenateMemberRowView {
        SenateMemberRowView {
            key: self.key.deep_view(),
            members_as_is: self.members_as_is.deep_view(),
            members_to_gen: self.members_to_gen.deep_view(),
        }
    }
}

/// The three rows that a Senate roll call is stored as.
#[derive(Debug)]
pub struct SenateRows {
    pub metadata: SenateMetadataRow,
    pub count: SenateCountRow,
    pub members: SenateMemberRow,
}

/// The mathematical model of `SenateRows`.
pub struct SenateRowsView {
    pub metadata: SenateMetadataRowView,
    pub count: SenateCountRowView,
    pub members: SenateMemberRowView,
}

impl DeepView for SenateRows {
    type V = SenateRowsView;

    open spec fn deep_view(&self) -> SenateRowsView {
        SenateRowsView {
            metadata: self.metadata.deep_view(),
            count: self.count.deep_view(),
            members: self.members.deep_view(),
        }
    }
}

/// What the rows of a roll call are filed under.
pub open spec fn vote_key(info: SenateInfoView) -> VoteKeyView {
    VoteKeyView {
        vote_hash: info.vote_hash,
        congress_number: info.congress_number,
        session_number: info.session_number,
        rollcall_number: info.rollcall_number,
        chamber: info.chamber,
        year: info.year,
    }
}

/// The rows that a normalized Senate roll call is stored as: each under the
/// key of the roll call, and between them every field of it once, but for
/// the key.
pub open spec fn rows_of(info: SenateInfoView) -> SenateRowsView {
    SenateRowsView {
        metadata: SenateMetadataRowView {
            key: vote_key(info),
            vote_date: info.vote_date,
            vote_modify_date: info.vote_modify_date,
            vote_question: info.vote_question,
            vote_question_text: info.vote_question_text,
            vote_document_text: info.vote_document_text,
            vote_result: info.vote_result,
            vote_title: info.vote_title,
            documents: info.documents,
            amendments: info.amendments,
            majority_requirement: info.majority_requirement,
        },
        count: SenateCountRowView {
            key: vote_key(info),
            yay: info.yay,
            nay: info.nay,
            present: info.present,
            absent: info.absent,
            tie_breaker_name: info.tie_breaker_name,
            tie_breaker_paired: info.tie_breaker_paired,
        },
        members: SenateMemberRowView {
            key: vote_key(info),
            members_as_is: info.members_as_is,
            members_to_gen: info.members_to_gen,
        },
    }
}

/// The key of a normalized roll call.
fn key_of(info: &SenateInfo) -> (key: VoteKey)
    ensures
        key.deep_view() == vote_key(info.deep_view()),
{
    VoteKey {
        vote_hash: info.vote_hash.clone(),
        congress_number: info.congress_number,
        session_number: info.session_number,
        rollcall_number: info.rollcall_number,
        chamber: info.chamber.clone(),
        year: info.year,
    }
}

/// The rows that a normalized Senate roll call is stored as.
pub fn senate_rows(info: SenateInfo) -> (rows: SenateRows)
    ensures
        rows.deep_view() == rows_of(info.deep_view()),
{
    let metadata_key = key_of(&info);
    let count_key = key_of(&info);
    let members_key = key_of(&info);
    SenateRows {
        metadata: SenateMetadataRow {
            key: metadata_key,
            vote_date: info.vote_date,
            vote_modify_date: info.vote_modify_date,
            vote_question: info.vote_question,
            vote_question_text: info.vote_question_text,
            vote_document_text: info.vote_document_text,
            vote_result: info.vote_result,
            vote_title: info.vote_title,
            documents: info.documents,
            amendments: info.amendments,
            majority_requirement: info.majority_requirement,
        },
        count: SenateCountRow {
            key: count_key,
            yay: info.yay,
            nay: info.nay,
            present: info.present,
            absent: info.absent,
            tie_breaker_name: info.tie_breaker_name,
            tie_breaker_paired: info.tie_breaker_paired,
        },
        members: SenateMemberRow {
            key: members_key,
            members_as_is: info.members_as_is,
            members_to_gen: info.members_to_gen,
        },
    }
}

/// What is stored for one file.
#[derive(Debug)]
pub enum StoredVote {
    House(HouseInfo),
    Senate {
        rows: SenateRows,
        /// How many counts of the roll call were taken for zero because
        /// they are no numbers.
        unreadable_counts: u8,
    },
}

/// The mathematical model of a `StoredVote`.
pub enum StoredVoteView {
    House(HouseInfoView),
    Senate { rows: SenateRowsView, unreadable_counts: int },
}

impl DeepView for StoredVote {
    type V = StoredVoteView;

    open spec fn deep_view(&self) -> StoredVoteView {
        match self {
            StoredVote::House(info) => StoredVoteView::House(info.deep_view()),
            StoredVote::Senate { rows, unreadable_counts } => StoredVoteView::Senate {
                rows: rows.deep_view(),
                unreadable_counts: *unreadable_counts as int,
            },
        }
    }
}

/// What is stored for a document of a chamber. For the Senate, the hash is
/// that of the roll call within the document.
pub open spec fn stored_document(place: DatedVotePathView, document: JsonView) -> Result<
    StoredVoteView,
    SkipReason,
> {
    if place.chamber == "house"@ {
        match decode_house_file(document) {
            Some(file) => Ok(
                StoredVoteView::House(
                    house_info(
                        place.congress_number,
                        place.session_number,
                        place.rollcall_number,
                        place.chamber,
                        place.year,
                        file.rollcall_vote,
                    ),
                ),
            ),
            None => Err(SkipReason::Mismatch),
        }
    } else if place.chamber == "senate"@ {
        match decode_senate_file(document) {
            Some(file) => Ok(
                StoredVoteView::Senate {
                    rows: rows_of(
                        senate_info(
                            place.congress_number,
                            place.session_number,
                            place.rollcall_number,
                            place.chamber,
                            place.year,
                            file.roll_call_vote,
                            member(document->Object_0, "roll_call_vote"@)->0,
                        ),
                    ),
                    unreadable_counts: unreadable_counts(file.roll_call_vote.count),
                },
            ),
            None => Err(SkipReason::Mismatch),
        }
    } else {
        Err(SkipReason::UnknownChamber)
    }
}

/// What is stored for a file, from its path and from the document that its
/// text holds, if it holds one. The path is looked at first, then the
/// chamber, then the text.
pub open spec fn stored_file(path: Seq<char>, document: Option<JsonView>) -> Result<
    StoredVoteView,
    SkipReason,
> {
    match dated_vote_path(path) {
        Err(e) => Err(SkipReason::Path(e)),
        Ok(place) => if place.chamber != "house"@ && place.chamber != "senate"@ {
            Err(SkipReason::UnknownChamber)
        } else {
            match document {
                None => Err(SkipReason::Malformed),
                Some(d) => stored_document(place, d),
            }
        },
    }
}

/// The model of what is stored, or of why nothing is.
pub open spec fn stored_result(r: Result<StoredVote, SkipReason>) -> Result<
    StoredVoteView,
    SkipReason,
> {
    match r {
        Ok(v) => Ok(v.deep_view()),
        Err(e) => Err(e),
    }
}

/// Normalizes the document of a file, by the chamber that the path names.
pub fn store_document(
    info_pulled: &(u16, u8, u32, String, u16),
    document: &JsonValue,
) -> (r: Result<
    StoredVote,
    SkipReason,
>)
    ensures
        stored_result(r) == stored_document(
            DatedVotePathView {
                congress_number: info_pulled.0 as int,
                session_number: info_pulled.1 as int,
                rollcall_number: info_pulled.2 as int,
                chamber: info_pulled.3@,
                year: info_pulled.4 as int,
            },
            document.deep_view(),
        ),
{
    if text_eq(info_pulled.3.as_str(), "house") {
        match HouseFile::from_json(document) {
            Some(file) => Ok(StoredVote::House(get_house_vote(info_pulled, &file.rollcall_vote))),
            None => Err(SkipReason::Mismatch),
        }
    } else if text_eq(info_pulled.3.as_str(), "senate") {
        match SenateFile::from_json(document) {
            Some(file) => {
                proof {
                    lemma_json_view(*document);
                }
                match document {
                    JsonValue::Object(members) => match find_member(members, "roll_call_vote") {
                        Some(roll_call) => {
                            let info = get_senate_vote(
                                info_pulled,
                                &file.roll_call_vote,
                                roll_call,
                            );
                            Ok(
                                StoredVote::Senate {
                                    rows: senate_rows(info),
                                    unreadable_counts: count_unreadable(&file.roll_call_vote.count),
                                },
                            )
                        },
                        None => Err(SkipReason::Mismatch),
                    },
                    _ => Err(SkipReason::Mismatch),
                }
            },
            None => Err(SkipReason::Mismatch),
        }
    } else {
        Err(SkipReason::UnknownChamber)
    }
}

/// Normalizes one file for storing.
pub fn prepare_vote_file(path: &str, text: &str) -> (r: Result<StoredVote, Skipped>)
    ensures
        match stored_file(path@, json_document(text@)) {
            Ok(stored) => r matches Ok(v) && v.deep_view() == stored,
            Err(reason) => r matches Err(skipped) && skipped.reason == reason,
        },
{
    let place = match parse_dated_vote_path(path) {
        Ok(place) => place,
        Err(e) => {
            return Err(Skipped { reason: SkipReason::Path(e), detail: String::new() });
        },
    };
    if !text_eq(place.chamber.as_str(), "house") && !text_eq(place.chamber.as_str(), "senate") {
        return Err(Skipped { reason: SkipReason::UnknownChamber, detail: String::new() });
    }
    let document = match parse(text) {
        Ok(document) => document,
        Err(e) => {
            return Err(Skipped { reason: SkipReason::Malformed, detail: e.message });
        },
    };
    let info_pulled = (
        place.congress_number,
        place.session_number,
        place.rollcall_number,
        place.chamber,
        place.year,
    );
    match store_document(&info_pulled, &document) {
        Ok(stored) => Ok(stored),
        Err(reason) => Err(Skipped { reason, detail: String::new() }),
    }
}

/// What happened to one file of a run.
#[derive(Debug, Clone, Copy, PartialEq, Eq, Structural)]
pub enum FileResult {
    /// The file was passed over; nothing was stored for it.
    Skipped,
    /// The rows of the file were stored.
    Stored,
    /// Storing the rows of the file failed.
    StoreFailed,
}

/// What a run does next.
#[derive(Debug, Clone, Copy, PartialEq, Eq, Structural)]
pub enum RunAction {
    /// Take the next file.
    Continue,
    /// Every file was attempted and nothing failed: commit the transaction.
    Commit,
    /// Storing failed: roll the transaction back and end the run in failure.
    Rollback,
}

/// A run that stores many files in one transaction.
#[derive(Debug, Clone, Copy, PartialEq, Eq, Structural)]
pub struct Run {
    /// How many files the run has to attempt.
    pub total: usize,
    /// How many files it has attempted.
    pub attempted: usize,
    /// How many of them were stored.
    pub stored: usize,
    /// Whether the transaction is still open.
    pub open: bool,
}

impl Run {
    /// A run over `total` files. With no file there is nothing to run, and
    /// no transaction is opened.
    pub fn start(total: usize) -> (r: Option<Run>)
        ensures
            total == 0 ==> r is None,
            total > 0 ==> r == Some(Run { total, attempted: 0, stored: 0, open: true }),
    {
        if total == 0 {
            None
        } else {
            Some(Run { total, attempted: 0, stored: 0, open: true })
        }
    }

    /// Whether the run can take another file.
    pub open spec fn expects_file(self) -> bool {
        self.open && self.attempted < self.total
    }

    /// What the run does after a file: it rolls back as soon as storing
    /// fails, whatever was stored before; it commits after the last file and
    /// not before; else it goes on. A file that was passed over does not end
    /// the run.
    pub open spec fn next(self, result: FileResult) -> (Run, RunAction) {
        if result == FileResult::StoreFailed {
            (
                Run { attempted: (self.attempted + 1) as usize, open: false, ..self },
                RunAction::Rollback,
            )
        } else {
            let stored = if result == FileResult::Stored {
                (self.stored + 1) as usize
            } else {
                self.stored
            };
            let attempted = (self.attempted + 1) as usize;
            if attempted == self.total {
                (Run { attempted, stored, open: false, ..self }, RunAction::Commit)
            } else {
                (Run { attempted, stored, ..self }, RunAction::Continue)
            }
        }
    }

    /// Records what happened to a file and says what the run does next.
    pub fn after_file(&mut self, result: FileResult) -> (action: RunAction)
        requires
            old(self).expects_file(),
            old(self).stored <= old(self).attempted,
        ensures
            (*final(self), action) == old(self).next(result),
            final(self).stored <= final(self).attempted <= final(self).total,
            action == RunAction::Continue <==> final(self).expects_file(),
    {
        self.attempted = self.attempted + 1;
        match result {
            FileResult::StoreFailed => {
                self.open = false;
                RunAction::Rollback
            },
            FileResult::Stored => {
                self.stored = self.stored + 1;
                if self.attempted == self.total {
                    self.open = false;
                    RunAction::Commit
                } else {
                    RunAction::Continue
                }
            },
            FileResult::Skipped => {
                if self.attempted == self.total {
                    self.open = false;
                    RunAction::Commit
                } else {
                    RunAction::Continue
                }
            },
        }
    }
}

} // verus!
