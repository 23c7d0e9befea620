use congress_rolls::house::HouseFile;
use congress_rolls::json::parse;
use congress_rolls::json_master::{
    house_unified_votes, process_vote_file, votes_of_document, SkipReason, VoteFile,
};
use congress_rolls::paths::{parse_vote_path, PathError};
use congress_rolls::responses::CombinedData;
use congress_rolls::sql_house::get_house_vote;

const HOUSE: &str = r#"{
  "rollcall-vote": {
    "vote-metadata": {
      "majority": "D", "congress": "116", "session": "2nd", "chamber": "U.S. House",
      "rollcall-num": 1, "legis-num": "QUORUM", "vote-question": "Call by States",
      "vote-type": "QUORUM", "vote-result": "Passed", "action-date": "7-Jan-2020",
      "action-time": {"content": "6:52 PM", "time-etz": "18:52"},
      "vote-desc": null,
      "vote-totals": {
        "totals-by-party": [{"party": "Republican", "yea-total": "1"}],
        "totals-by-vote": {"total-stub": "Totals", "yea-total": "2"}
      }
    },
    "vote-data": {
      "recorded-vote": [
        {"legislator": {"name-id": "A000374", "unaccented-name": "Abraham", "party": "R",
                        "state": "LA", "role": "legislator", "content": "Abraham"},
         "vote": "Present"},
        {"vote": "Yea"}
      ]
    }
  }
}"#;

#[test]
fn house_entry_without_legislator_is_left_out() {
    let mut tree = CombinedData::default();
    let report =
        process_vote_file("data/json/116/house/2/2020_1.json", HOUSE, &mut tree).unwrap();
    assert_eq!(report.votes, 1);
    assert_eq!(report.left_out, 1);
    assert!(report.complete);
    assert_eq!(tree.chambers.len(), 1);
    assert_eq!(tree.chambers[0].name, "house");
    let congress = tree.chambers[0].data.congresses.get(&116).unwrap();
    let session = congress.sessions.get(&2).unwrap();
    assert_eq!(session.rollcalls.len(), 1);
    let record = &session.rollcalls[0];
    assert_eq!(record.rollcall_number, 1);
    assert_eq!(record.vote_date, "7-Jan-2020");
    assert_eq!(record.vote_question, "Call by States");
    assert_eq!(record.vote_result, "Passed");
    assert_eq!(record.vote_casts.len(), 1);
    let vote = &record.vote_casts[0];
    assert_eq!(vote.congress_number, 116);
    assert_eq!(vote.chamber, "house");
    assert_eq!(vote.session_number, 2);
    assert_eq!(vote.rollcall_number, 1);
    assert_eq!(vote.legislator_id, "A000374");
    assert_eq!(vote.legislator_name, "Abraham");
    assert_eq!(vote.party, "R");
    assert_eq!(vote.state, "LA");
    assert_eq!(vote.vote_cast, "Present");
}

#[test]
fn house_votes_fall_back_on_sentinels() {
    let text = r#"{"rollcall-vote": {"vote-metadata": {"congress": "116", "session": "1st",
        "rollcall-num": "x", "vote-question": 7, "vote-type": null, "vote-result": [],
        "action-date": {}, "vote-desc": "d"},
        "vote-data": {"recorded-vote": [{"legislator": {}}]}}}"#;
    let place = parse_vote_path("data/json/116/HOUSE/1/2019_9.json").unwrap();
    let file = HouseFile::from_json(&parse(text).unwrap()).unwrap();
    let extraction = house_unified_votes(&place, &file.rollcall_vote);
    assert_eq!(extraction.left_out, 0);
    assert_eq!(extraction.votes.len(), 1);
    let vote = &extraction.votes[0];
    assert_eq!(vote.vote_date, "null");
    assert_eq!(vote.vote_question, "null");
    assert_eq!(vote.vote_result, "null");
    assert_eq!(vote.legislator_id, "None");
    assert_eq!(vote.legislator_name, "❓ Unknown");
    assert_eq!(vote.party, "None");
    assert_eq!(vote.state, "None");
    assert_eq!(vote.vote_cast, "None");
    assert_eq!(vote.rollcall_number, 9);
}

#[test]
fn house_file_without_vote_data_yields_no_votes() {
    let text = r#"{"rollcall-vote": {"vote-metadata": {"congress": "116", "session": "1st",
        "rollcall-num": 1, "vote-question": "q", "vote-type": "t", "vote-result": "r",
        "action-date": "d", "vote-desc": "x"}}}"#;
    let mut tree = CombinedData::default();
    let report = process_vote_file("data/json/116/house/1/2019_1.json", text, &mut tree).unwrap();
    assert_eq!(report.votes, 0);
    assert_eq!(report.left_out, 0);
    assert!(!report.complete);
    assert!(tree.chambers.is_empty());
    let with_data = text.replace("\"vote-desc\": \"x\"}", "\"vote-desc\": \"x\"}, \"vote-data\": {}");
    let report =
        process_vote_file("data/json/116/house/1/2019_1.json", &with_data, &mut tree).unwrap();
    assert_eq!(report.votes, 0);
    assert!(report.complete);
}

#[test]
fn files_are_passed_over_for_each_reason() {
    let mut tree = CombinedData::default();
    let skipped = process_vote_file("116/house/2/2020_1.json", HOUSE, &mut tree).err().unwrap();
    assert_eq!(skipped.reason, SkipReason::Path(PathError::UnexpectedFormat));
    let skipped =
        process_vote_file("data/json/x/house/2/2020_1.json", HOUSE, &mut tree).err().unwrap();
    assert_eq!(skipped.reason, SkipReason::Path(PathError::InvalidCongress));
    let skipped =
        process_vote_file("data/json/116/house/x/2020_1.json", HOUSE, &mut tree).err().unwrap();
    assert_eq!(skipped.reason, SkipReason::Path(PathError::InvalidSession));
    let skipped =
        process_vote_file("data/json/116/house/2/2020_x.json", HOUSE, &mut tree).err().unwrap();
    assert_eq!(skipped.reason, SkipReason::Path(PathError::InvalidRollcall));
    // the chamber is looked at before the text
    let skipped =
        process_vote_file("data/json/116/lords/2/2020_1.json", "{", &mut tree).err().unwrap();
    assert_eq!(skipped.reason, SkipReason::UnknownChamber);
    let skipped =
        process_vote_file("data/json/116/house/2/2020_1.json", "{", &mut tree).err().unwrap();
    assert_eq!(skipped.reason, SkipReason::Malformed);
    assert!(!skipped.detail.is_empty());
    let skipped =
        process_vote_file("data/json/116/senate/2/2020_1.json", HOUSE, &mut tree).err().unwrap();
    assert_eq!(skipped.reason, SkipReason::Mismatch);
    let skipped =
        process_vote_file("data/json/116/house/2/2020_1.json", "{}", &mut tree).err().unwrap();
    assert_eq!(skipped.reason, SkipReason::Mismatch);
    assert!(tree.chambers.is_empty());
    let place = parse_vote_path("data/json/116/lords/2/2020_1.json").unwrap();
    let reason = votes_of_document(&place, &parse(HOUSE).unwrap()).err();
    assert_eq!(reason, Some(SkipReason::UnknownChamber));
}

#[test]
fn house_roll_call_is_normalized_for_storing() {
    let file = HouseFile::from_json(&parse(HOUSE).unwrap()).unwrap();
    let info = get_house_vote(&(116, 2, 1, "house".to_string(), 2020), &file.rollcall_vote);
    assert_eq!(info.congress_number, 116);
    assert_eq!(info.session_number, 2);
    assert_eq!(info.rollcall_number, 1);
    assert_eq!(info.chamber, "house");
    assert_eq!(info.year, 2020);
    assert_eq!(info.majority, "D");
    assert_eq!(info.committee, "null");
    assert_eq!(info.legis_num, "QUORUM");
    assert_eq!(info.vote_question, "Call by States");
    assert_eq!(info.vote_type, "QUORUM");
    assert_eq!(info.vote_result, "Passed");
    assert_eq!(info.action_date, "7-Jan-2020");
    assert_eq!(info.action_time, "6:52 PM");
    assert_eq!(info.action_time_etz, "18:52");
    assert_eq!(info.vote_desc, "null");
    assert_eq!(info.totals_by_party.len(), 1);
    assert_eq!(info.totals_by_party[0].party.as_deref(), Some("Republican"));
    assert_eq!(info.totals_by_party[0].yea_total.as_deref(), Some("1"));
    // a missing table has one empty row
    assert_eq!(info.totals_by_candidate.len(), 1);
    assert!(info.totals_by_candidate[0].candidate.is_none());
    assert_eq!(info.totals_by_vote.total_stub.as_deref(), Some("Totals"));
    assert_eq!(info.totals_by_vote.yea_total.as_deref(), Some("2"));
    assert!(info.totals_by_vote.nay_total.is_none());
}

#[test]
fn house_roll_call_without_totals_or_time() {
    let text = r#"{"rollcall-vote": {"vote-metadata": {"congress": "116", "session": "1st",
        "rollcall-num": 1, "vote-question": "q", "vote-type": 3, "vote-result": "r",
        "action-date": "d", "vote-desc": "x", "action-time": {"content": "noon"}}}}"#;
    let file = HouseFile::from_json(&parse(text).unwrap()).unwrap();
    let info = get_house_vote(&(116, 1, 1, "house".to_string(), 2019), &file.rollcall_vote);
    assert_eq!(info.majority, "null");
    assert_eq!(info.vote_type, "null");
    assert_eq!(info.action_time, "noon");
    assert_eq!(info.action_time_etz, "null");
    assert_eq!(info.totals_by_party.len(), 1);
    assert!(info.totals_by_party[0].party.is_none());
    assert_eq!(info.totals_by_candidate.len(), 1);
    assert!(info.totals_by_vote.total_stub.is_none());
}

#[test]
fn house_schema_is_checked() {
    let bad = [
        HOUSE.replace("\"congress\": \"116\"", "\"congress\": 116"),
        HOUSE.replace("\"rollcall-num\": 1,", ""),
        HOUSE.replace("\"vote-desc\": null", "\"vote-desc\": true"),
        HOUSE.replace("\"majority\": \"D\"", "\"majority\": 5"),
        HOUSE.replace("\"vote\": \"Yea\"", "\"vote\": 1"),
        HOUSE.replace("[{\"party\": \"Republican\", \"yea-total\": \"1\"}]", "{\"party\": \"R\"}"),
        HOUSE.replace("{\"content\": \"6:52 PM\", \"time-etz\": \"18:52\"}", "[\"6:52 PM\", \"18:52\"]"),
    ];
    for text in bad.iter() {
        assert_ne!(text, HOUSE);
        assert!(HouseFile::from_json(&parse(text).unwrap()).is_none(), "{}", text);
    }
    // unknown members are passed over, and null stands for a missing optional field
    let more = HOUSE
        .replace("\"majority\": \"D\"", "\"majority\": null, \"unheard\": [true]")
        .replace("\"vote\": \"Present\"", "\"vote\": \"Present\", \"extra\": 1.5");
    assert!(HouseFile::from_json(&parse(&more).unwrap()).is_some());
}

#[test]
fn a_file_of_unknown_chamber_is_tried_as_house_then_senate() {
    assert!(matches!(VoteFile::from_json(&parse(HOUSE).unwrap()), Some(VoteFile::HouseFile(_))));
    let senate = r#"{"roll_call_vote": {"congress": "1", "session": "1", "vote_date": null,
        "vote_question_text": null, "vote_document_text": null, "vote_result_text": null,
        "question": null}}"#;
    assert!(matches!(VoteFile::from_json(&parse(senate).unwrap()), Some(VoteFile::SenateFile(_))));
    assert!(VoteFile::from_json(&parse("{}").unwrap()).is_none());
    let both = format!("{}, {}", &HOUSE[..HOUSE.len() - 1], &senate[1..]);
    assert!(matches!(VoteFile::from_json(&parse(&both).unwrap()), Some(VoteFile::HouseFile(_))));
}
