use congress_rolls::json::{find_member, parse, to_text, JsonValue};
use congress_rolls::json_master::{process_vote_file, senate_unified_votes, SkipReason};
use congress_rolls::paths::parse_vote_path;
use congress_rolls::responses::{CombinedData, Response};
use congress_rolls::senate::{ResponseSpecific, RollCallVoteSenate, SenateFile};
use congress_rolls::sql_senate::{count_unreadable, get_senate_vote, SenateInfo};
use congress_rolls::sqllite::{
    generate_hash, member_hash, prepare_vote_file, senate_rows, StoredVote,
};

const DOCUMENT: &str = r#"{"document_congress": "116", "document_type": "H.R.",
    "document_number": "5430", "document_name": "H.R. 5430",
    "document_title": "A bill to implement the Agreement.", "document_short_title": "USMCA"}"#;

fn senate_text(middle: &str) -> String {
    format!(
        r#"{{"roll_call_vote": {{
            "congress": "116", "session": "2", "congress_year": "2020", "vote_number": "14",
            "vote_date": "January 16, 2020, 11:02 AM", "modify_date": "January 16, 2020",
            "vote_question_text": "On Passage of the Bill H.R. 5430",
            "vote_document_text": "A bill.", "vote_result_text": "Bill Passed (89-10)",
            "question": "On Passage of the Bill", "vote_title": "H.R. 5430",
            "majority_requirement": "1/2", "vote_result": "Bill Passed"
            {}
        }}}}"#,
        middle
    )
}

fn info_of(text: &str) -> SenateInfo {
    let document = parse(text).unwrap();
    let file = SenateFile::from_json(&document).unwrap();
    let roll_call = match &document {
        JsonValue::Object(members) => find_member(members, "roll_call_vote").unwrap(),
        _ => unreachable!(),
    };
    get_senate_vote(&(1, 1, 1, "senate".to_string(), 2020), &file.roll_call_vote, roll_call)
}

#[test]
fn senate_bare_document_equals_list_of_one() {
    let bare = info_of(&senate_text(&format!(", \"document\": {}", DOCUMENT)));
    let listed = info_of(&senate_text(&format!(", \"document\": [{}]", DOCUMENT)));
    assert_eq!(bare.documents.len(), 1);
    assert_eq!(listed.documents.len(), 1);
    assert_eq!(format!("{:?}", bare.documents), format!("{:?}", listed.documents));
    let document = &bare.documents[0];
    assert!(matches!(&document.document_congress, Response::String(s) if s == "116"));
    assert!(matches!(&document.document_number, Response::String(s) if s == "5430"));
    assert_eq!(document.document_short_title.as_deref(), Some("USMCA"));
    let two = info_of(&senate_text(&format!(", \"document\": [{}, {}]", DOCUMENT, DOCUMENT)));
    assert_eq!(two.documents.len(), 2);
}

#[test]
fn senate_documents_and_amendments_default_to_one_empty_entry() {
    let none = info_of(&senate_text(""));
    assert_eq!(none.documents.len(), 1);
    assert!(matches!(&none.documents[0].document_congress, Response::Absent));
    assert_eq!(none.amendments.len(), 1);
    assert!(none.amendments[0].amendment_number.is_none());
    let text = info_of(&senate_text(", \"document\": \"x\", \"amendment\": \"y\""));
    assert_eq!(text.documents.len(), 1);
    assert!(matches!(&text.documents[0].document_congress, Response::Absent));
    assert_eq!(text.amendments.len(), 1);
    let amended = info_of(&senate_text(
        ", \"amendment\": {\"amendment_number\": \"S.Amdt. 9\", \"amendment_purpose\": \"p\",
            \"amendment_to_document_number\": \"H.R. 1\"}",
    ));
    assert_eq!(amended.amendments.len(), 1);
    assert_eq!(amended.amendments[0].amendment_number.as_deref(), Some("S.Amdt. 9"));
    assert!(matches!(
        &amended.amendments[0].amendment_to_document_number,
        Some(Response::String(s)) if s == "H.R. 1"
    ));
    let listed = info_of(&senate_text(
        ", \"amendment\": [{\"amendment_number\": \"1\"}, {\"amendment_number\": \"2\"}]",
    ));
    assert_eq!(listed.amendments.len(), 2);
    assert_eq!(listed.amendments[1].amendment_number.as_deref(), Some("2"));
    // an empty list is a list of documents, so it gives no amendment at all
    let empty = info_of(&senate_text(", \"document\": [], \"amendment\": []"));
    assert_eq!(empty.documents.len(), 0);
    assert_eq!(empty.amendments.len(), 1);
}

#[test]
fn senate_counts_as_text_or_number() {
    let info = info_of(&senate_text(
        ", \"count\": {\"yeas\": \"89\", \"nays\": \"10\", \"present\": \"5\", \"absent\": 2}",
    ));
    assert_eq!(info.yay, 89);
    assert_eq!(info.nay, 10);
    assert_eq!(info.present, 5);
    assert_eq!(info.absent, 2);
}

#[test]
fn senate_counts_degrade_to_zero() {
    let info = info_of(&senate_text(
        ", \"count\": {\"yeas\": \"many\", \"nays\": \"\", \"present\": null, \"absent\": [2]}",
    ));
    assert_eq!((info.yay, info.nay, info.present, info.absent), (0, 0, 0, 0));
    let info = info_of(&senate_text(", \"count\": {\"present\": \"4294967296\", \"absent\": \"x\"}"));
    assert_eq!((info.yay, info.nay, info.present, info.absent), (0, 0, 0, 0));
    let info = info_of(&senate_text(""));
    assert_eq!((info.yay, info.nay, info.present, info.absent), (0, 0, 0, 0));
    let info = info_of(&senate_text(", \"count\": {\"yeas\": \"+7\", \"absent\": 4294967295}"));
    assert_eq!((info.yay, info.nay, info.present, info.absent), (7, 0, 0, 4294967295));
}

#[test]
fn senate_counts_that_are_no_numbers_are_counted() {
    let faulty = senate_text(
        ", \"count\": {\"yeas\": \"many\", \"nays\": \"10\", \"present\": [1], \"absent\": \"\"}",
    );
    let file = SenateFile::from_json(&parse(&faulty).unwrap()).unwrap();
    assert_eq!(count_unreadable(&file.roll_call_vote.count), 3);
    match prepare_vote_file("data/json/1/senate/1/2020_99.json", &faulty) {
        Ok(StoredVote::Senate { rows, unreadable_counts }) => {
            assert_eq!(unreadable_counts, 3);
            assert_eq!((rows.count.yay, rows.count.nay), (0, 10));
        },
        other => panic!("not stored as a Senate roll call: {:?}", other),
    }
    let fine = senate_text(", \"count\": {\"yeas\": \"1\", \"present\": 2, \"absent\": null}");
    let file = SenateFile::from_json(&parse(&fine).unwrap()).unwrap();
    assert_eq!(count_unreadable(&file.roll_call_vote.count), 0);
    let file = SenateFile::from_json(&parse(&senate_text("")).unwrap()).unwrap();
    assert_eq!(count_unreadable(&file.roll_call_vote.count), 0);
}

#[test]
fn senate_texts_and_tie_breaker() {
    let info = info_of(&senate_text(
        ", \"tie_breaker\": {\"by_whom\": \"Vice President\", \"tie_breaker_vote\": null}",
    ));
    // the document states congress, session and roll call, so the path does not count
    assert_eq!(info.congress_number, 116);
    assert_eq!(info.session_number, 2);
    assert_eq!(info.rollcall_number, 14);
    assert_eq!(info.chamber, "senate");
    assert_eq!(info.year, 2020);
    assert_eq!(info.vote_date, "January 16, 2020, 11:02 AM");
    assert_eq!(info.vote_modify_date, "January 16, 2020");
    assert_eq!(info.vote_question, "On Passage of the Bill");
    assert_eq!(info.vote_question_text, "On Passage of the Bill H.R. 5430");
    assert_eq!(info.vote_document_text, "A bill.");
    assert_eq!(info.vote_result, "Bill Passed");
    assert_eq!(info.vote_title, "H.R. 5430");
    assert_eq!(info.majority_requirement, "1/2");
    assert_eq!(info.tie_breaker_name, "Vice President");
    assert_eq!(info.tie_breaker_paired, "null");
    let none = info_of(&senate_text(""));
    assert_eq!(none.tie_breaker_name, "null");
    assert_eq!(none.tie_breaker_paired, "null");
}

#[test]
fn senate_path_counts_where_the_document_states_no_number() {
    let text = senate_text("")
        .replace("\"congress\": \"116\"", "\"congress\": \"one\"")
        .replace("\"session\": \"2\"", "\"session\": \"300\"")
        .replace("\"vote_number\": \"14\",", "")
        .replace("\"vote_title\": \"H.R. 5430\",", "\"vote_title\": null,")
        .replace("\"question\": \"On Passage of the Bill\"", "\"question\": 3");
    let document = parse(&text).unwrap();
    let file = SenateFile::from_json(&document).unwrap();
    let info =
        get_senate_vote(&(115, 1, 77, "senate".to_string(), 2017), &file.roll_call_vote, &document);
    assert_eq!(info.congress_number, 115);
    assert_eq!(info.session_number, 1);
    assert_eq!(info.rollcall_number, 77);
    assert_eq!(info.year, 2017);
    assert_eq!(info.vote_title, "null");
    assert_eq!(info.vote_question, "null");
}

#[test]
fn senate_vote_hash_is_the_hash_of_the_roll_call_as_read() {
    let text = senate_text("");
    let info = info_of(&text);
    let value: serde_json::Value = serde_json::from_str(&text).unwrap();
    let expected = generate_hash(&serde_json::to_string(&value["roll_call_vote"]).unwrap());
    assert_eq!(info.vote_hash, expected);
    assert_eq!(info.vote_hash.len(), 64);
    // the order of the members in the file does not count, their content does
    let reordered = text.replacen(
        "\"congress\": \"116\", \"session\": \"2\"",
        "\"session\": \"2\", \"congress\": \"116\"",
        1,
    );
    assert_ne!(reordered, text);
    assert_eq!(info_of(&reordered).vote_hash, info.vote_hash);
    let changed = text.replace("Bill Passed (89-10)", "Bill Passed (89-11)");
    assert_ne!(info_of(&changed).vote_hash, info.vote_hash);
    let document = parse(&text).unwrap();
    assert_eq!(generate_hash(&to_text(&document)), generate_hash(&value.to_string()));
}

const MEMBERS: &str = r#", "members": {"member": [
    {"member_full": "Alexander (R-TN)", "last_name": "Alexander", "first_name": "Lamar",
     "party": "R", "state": "TN", "vote_cast": "Yea", "lis_member_id": "S289"},
    {"member_full": "Smith (D-MN)", "last_name": "Smith", "first_name": "Tina",
     "party": "D", "state": "MN", "vote_cast": {"content": "Nay", "pair": "Jones"}},
    {"last_name": " SMITH ", "first_name": "Adam", "party": "D", "state": "MN",
     "vote_cast": {"pair": "x"}},
    {}
]}"#;

#[test]
fn senate_members_are_filled_and_identified() {
    let info = info_of(&senate_text(MEMBERS));
    assert_eq!(info.members_as_is.len(), 4);
    assert_eq!(info.members_to_gen.len(), 4);
    let first = &info.members_as_is[0];
    assert_eq!(first.member_full.as_deref(), Some("Alexander (R-TN)"));
    assert_eq!(first.last_name.as_deref(), Some("Alexander"));
    assert_eq!(first.first_name.as_deref(), Some("Lamar"));
    assert_eq!(first.party.as_deref(), Some("R"));
    assert_eq!(first.state.as_deref(), Some("TN"));
    assert_eq!(first.lis_member_id.as_deref(), Some("S289"));
    match &first.vote_cast {
        Some(ResponseSpecific::VoteCastMap(cast)) => {
            assert_eq!(cast.name.as_deref(), Some("Yea"));
            assert_eq!(cast.paired_with.as_deref(), Some("null"));
        },
        other => panic!("not a vote: {:?}", other),
    }
    let hash = member_hash("Alexander", "R", "TN");
    let extra = first.extra.as_ref().unwrap();
    assert_eq!(extra.len(), 1);
    assert_eq!(extra[0].name, "generated_id");
    assert!(matches!(&extra[0].value, JsonValue::Text(s) if *s == hash));
    let general = &info.members_to_gen[0];
    assert_eq!(general.last_name, "Alexander");
    assert_eq!(general.party, "R");
    assert_eq!(general.state, "TN");
    assert_eq!(general.generated_id, hash);
    assert_ne!(general.generated_id, "S289");
    match &info.members_as_is[1].vote_cast {
        Some(ResponseSpecific::VoteCastMap(cast)) => {
            assert_eq!(cast.name.as_deref(), Some("Nay"));
            assert_eq!(cast.paired_with.as_deref(), Some("Jones"));
        },
        other => panic!("not a vote: {:?}", other),
    }
    assert_eq!(info.members_as_is[1].lis_member_id.as_deref(), Some("None"));
    match &info.members_as_is[2].vote_cast {
        Some(ResponseSpecific::VoteCastMap(cast)) => {
            assert_eq!(cast.name.as_deref(), Some("null"));
            assert_eq!(cast.paired_with.as_deref(), Some("x"));
        },
        other => panic!("not a vote: {:?}", other),
    }
    let last = &info.members_as_is[3];
    assert_eq!(last.member_full.as_deref(), Some("null"));
    assert_eq!(last.last_name.as_deref(), Some("null"));
    assert_eq!(last.first_name.as_deref(), Some("null"));
    assert_eq!(last.party.as_deref(), Some("null"));
    assert_eq!(last.state.as_deref(), Some("null"));
    assert_eq!(last.lis_member_id.as_deref(), Some("None"));
    assert_eq!(info.members_to_gen[3].generated_id, member_hash("null", "null", "null"));
}

#[test]
fn senate_same_last_name_party_and_state_collide() {
    let info = info_of(&senate_text(MEMBERS));
    assert_eq!(info.members_as_is[1].first_name.as_deref(), Some("Tina"));
    assert_eq!(info.members_as_is[2].first_name.as_deref(), Some("Adam"));
    assert_eq!(info.members_to_gen[1].generated_id, info.members_to_gen[2].generated_id);
    assert_ne!(info.members_to_gen[0].generated_id, info.members_to_gen[1].generated_id);
    // the names are kept as they were published
    assert_eq!(info.members_to_gen[1].last_name, "Smith");
    assert_eq!(info.members_to_gen[2].last_name, " SMITH ");
}

#[test]
fn senate_members_without_a_list_give_one_placeholder() {
    let info = info_of(&senate_text(", \"members\": {}"));
    assert_eq!(info.members_as_is.len(), 0);
    assert_eq!(info.members_to_gen.len(), 1);
    let placeholder = &info.members_to_gen[0];
    assert_eq!(placeholder.last_name, "null");
    assert_eq!(placeholder.party, "null");
    assert_eq!(placeholder.state, "null");
    assert_eq!(placeholder.generated_id, "null");
    let info = info_of(&senate_text(""));
    assert_eq!(info.members_as_is.len(), 0);
    assert_eq!(info.members_to_gen.len(), 0);
    let info = info_of(&senate_text(", \"members\": {\"member\": []}"));
    assert_eq!(info.members_as_is.len(), 0);
    assert_eq!(info.members_to_gen.len(), 0);
}

#[test]
fn senate_votes_are_filed_one_for_each_senator() {
    let mut tree = CombinedData::default();
    let text = senate_text(MEMBERS);
    let report = process_vote_file("data/json/1/SENATE/1/2020_99.json", &text, &mut tree).unwrap();
    assert_eq!(report.votes, 4);
    assert_eq!(report.left_out, 0);
    assert!(report.complete);
    assert_eq!(tree.chambers[0].name, "senate");
    // the document states congress 116, session 2 and roll call 14
    let session = tree.chambers[0].data.congresses.get(&116).unwrap().sessions.get(&2).unwrap();
    assert_eq!(session.rollcalls.len(), 1);
    let record = &session.rollcalls[0];
    assert_eq!(record.rollcall_number, 14);
    assert_eq!(record.vote_date, "January 16, 2020, 11:02 AM");
    assert_eq!(record.vote_question, "On Passage of the Bill H.R. 5430");
    assert_eq!(record.vote_result, "Bill Passed");
    let casts: Vec<&str> = record.vote_casts.iter().map(|v| v.vote_cast.as_str()).collect();
    assert_eq!(casts, vec!["Yea", "Nay", "null", "None"]);
    let first = &record.vote_casts[0];
    assert_eq!(first.legislator_id, "S289");
    assert_eq!(first.legislator_name, "Alexander (R-TN)");
    assert_eq!(first.party, "R");
    assert_eq!(first.state, "TN");
    assert_eq!(first.chamber, "senate");
    let last = &record.vote_casts[3];
    assert_eq!(last.legislator_id, "None");
    assert_eq!(last.legislator_name, "None");
    assert_eq!(last.party, "None");
    assert_eq!(last.state, "None");
}

#[test]
fn senate_file_without_members_yields_no_votes() {
    let place = parse_vote_path("data/json/116/senate/2/2020_14.json").unwrap();
    let text = senate_text("").replace("\"vote_result\": \"Bill Passed\"", "\"vote_result\": null");
    let file = SenateFile::from_json(&parse(&text).unwrap()).unwrap();
    let extraction = senate_unified_votes(&place, &file.roll_call_vote);
    assert!(extraction.votes.is_empty());
    assert!(!extraction.complete);
    let text = text.replace("\"vote_title\"", "\"members\": {\"member\": [{}]}, \"vote_title\"");
    let file: RollCallVoteSenate =
        SenateFile::from_json(&parse(&text).unwrap()).unwrap().roll_call_vote;
    let extraction = senate_unified_votes(&place, &file);
    assert!(extraction.complete);
    assert_eq!(extraction.votes.len(), 1);
    assert_eq!(extraction.votes[0].vote_result, "None");
}

#[test]
fn senate_rows_share_the_key_and_split_the_fields() {
    let text = senate_text(&format!(
        "{}, \"count\": {{\"yeas\": \"89\", \"nays\": \"10\"}}, \"document\": {}",
        MEMBERS, DOCUMENT
    ));
    let info = info_of(&text);
    let hash = info.vote_hash.clone();
    let rows = senate_rows(info);
    for key in [&rows.metadata.key, &rows.count.key, &rows.members.key] {
        assert_eq!(key.vote_hash, hash);
        assert_eq!(key.congress_number, 116);
        assert_eq!(key.session_number, 2);
        assert_eq!(key.rollcall_number, 14);
        assert_eq!(key.chamber, "senate");
        assert_eq!(key.year, 2020);
    }
    assert_eq!(rows.metadata.vote_title, "H.R. 5430");
    assert_eq!(rows.metadata.vote_result, "Bill Passed");
    assert_eq!(rows.metadata.majority_requirement, "1/2");
    assert_eq!(rows.metadata.documents.len(), 1);
    assert_eq!(rows.metadata.amendments.len(), 1);
    assert_eq!(rows.count.yay, 89);
    assert_eq!(rows.count.nay, 10);
    assert_eq!(rows.count.tie_breaker_name, "null");
    assert_eq!(rows.members.members_as_is.len(), 4);
    assert_eq!(rows.members.members_to_gen.len(), 4);
}

#[test]
fn files_are_prepared_for_storing_by_chamber() {
    let text = senate_text(MEMBERS);
    match prepare_vote_file("data/json/1/senate/1/2020_99.json", &text) {
        Ok(StoredVote::Senate { rows, unreadable_counts }) => {
            assert_eq!(unreadable_counts, 0);
            assert_eq!(rows.count.key.year, 2020);
            assert_eq!(rows.members.members_to_gen.len(), 4);
            assert_eq!(rows.metadata.key.vote_hash, info_of(&text).vote_hash);
        },
        other => panic!("not stored as a Senate roll call: {:?}", other),
    }
    let skipped = prepare_vote_file("data/json/1/senate/1/99.json", &text).err().unwrap();
    assert!(matches!(skipped.reason, SkipReason::Path(_)));
    let skipped = prepare_vote_file("data/json/1/house/1/2020_99.json", &text).err().unwrap();
    assert_eq!(skipped.reason, SkipReason::Mismatch);
    let skipped = prepare_vote_file("data/json/1/other/1/2020_99.json", &text).err().unwrap();
    assert_eq!(skipped.reason, SkipReason::UnknownChamber);
    let skipped = prepare_vote_file("data/json/1/senate/1/2020_99.json", "[").err().unwrap();
    assert_eq!(skipped.reason, SkipReason::Malformed);
    let house = r#"{"rollcall-vote": {"vote-metadata": {"congress": "116", "session": "1st",
        "rollcall-num": 1, "vote-question": "q", "vote-type": "t", "vote-result": "r",
        "action-date": "d", "vote-desc": "x"}}}"#;
    match prepare_vote_file("data/json/116/house/1/2019_3.json", house) {
        Ok(StoredVote::House(info)) => {
            assert_eq!(info.year, 2019);
            assert_eq!(info.rollcall_number, 3);
            assert_eq!(info.vote_question, "q");
        },
        other => panic!("not stored as a House roll call: {:?}", other),
    }
}
