use congress_rolls::json::{parse, to_text};
use congress_rolls::json_master::{
    insert_all_into_database, insert_into_chamber, insert_into_congress, insert_into_database,
    insert_into_session, find_chamber,
};
use congress_rolls::responses::{
    ChamberData, ChamberEntry, CombinedData, CongressData, RollCallData, SessionData, UnifiedVote,
};
use congress_rolls::sink::{
    combined_data_from_json, combined_data_to_json, parse_combined_data, serialize_combined_data,
    vote_from_json, vote_to_json,
};
use congress_rolls::sqllite::{FileResult, Run, RunAction};

fn vote(chamber: &str, congress: u16, session: u8, rollcall: u32, who: &str) -> UnifiedVote {
    UnifiedVote {
        congress_number: congress,
        chamber: chamber.to_string(),
        session_number: session,
        rollcall_number: rollcall,
        vote_date: format!("date of {}", who),
        vote_question: format!("question of {}", who),
        vote_result: format!("result of {}", who),
        legislator_id: who.to_string(),
        legislator_name: who.to_uppercase(),
        party: "D".to_string(),
        state: "NY".to_string(),
        vote_cast: "Yea".to_string(),
    }
}

fn session<'a>(tree: &'a CombinedData, chamber: &str, congress: u16, number: u8) -> &'a SessionData {
    let at = find_chamber(&tree.chambers, chamber).unwrap();
    tree.chambers[at].data.congresses.get(&congress).unwrap().sessions.get(&number).unwrap()
}

#[test]
fn two_votes_of_one_roll_call_share_one_record() {
    let mut tree = CombinedData::default();
    assert!(insert_into_database(&vote("House", 116, 2, 7, "a"), &mut tree).is_ok());
    assert!(insert_into_database(&vote("HOUSE", 116, 2, 7, "b"), &mut tree).is_ok());
    assert_eq!(tree.chambers.len(), 1);
    assert_eq!(tree.chambers[0].name, "house");
    assert_eq!(tree.chambers[0].data.congresses.len(), 1);
    let session = session(&tree, "house", 116, 2);
    assert_eq!(session.rollcalls.len(), 1);
    let record = &session.rollcalls[0];
    assert_eq!(record.rollcall_number, 7);
    assert_eq!(record.vote_casts.len(), 2);
    assert_eq!(record.vote_casts[0].legislator_id, "a");
    assert_eq!(record.vote_casts[1].legislator_id, "b");
    // the record keeps what the first vote said of the roll call
    assert_eq!(record.vote_date, "date of a");
    assert_eq!(record.vote_question, "question of a");
    assert_eq!(record.vote_result, "result of a");
    // a vote keeps the chamber as it was given
    assert_eq!(record.vote_casts[1].chamber, "HOUSE");
}

#[test]
fn votes_of_different_roll_calls_get_a_record_each() {
    let mut tree = CombinedData::default();
    let votes = vec![
        vote("senate", 116, 2, 3, "a"),
        vote("senate", 116, 2, 1, "b"),
        vote("senate", 116, 2, 3, "c"),
        vote("senate", 116, 2, 2, "d"),
        vote("senate", 116, 2, 1, "e"),
    ];
    insert_all_into_database(&votes, &mut tree);
    let session = session(&tree, "senate", 116, 2);
    let numbers: Vec<u32> = session.rollcalls.iter().map(|r| r.rollcall_number).collect();
    assert_eq!(numbers, vec![3, 1, 2]);
    let who: Vec<Vec<&str>> = session
        .rollcalls
        .iter()
        .map(|r| r.vote_casts.iter().map(|v| v.legislator_id.as_str()).collect())
        .collect();
    assert_eq!(who, vec![vec!["a", "c"], vec!["b", "e"], vec!["d"]]);
}

#[test]
fn votes_are_filed_by_chamber_congress_and_session() {
    let mut tree = CombinedData::default();
    let votes = vec![
        vote("house", 116, 1, 1, "a"),
        vote("senate", 116, 1, 1, "b"),
        vote("house", 117, 1, 1, "c"),
        vote("house", 116, 2, 1, "d"),
        vote("house", 116, 1, 1, "e"),
    ];
    insert_all_into_database(&votes, &mut tree);
    let names: Vec<&str> = tree.chambers.iter().map(|c| c.name.as_str()).collect();
    assert_eq!(names, vec!["house", "senate"]);
    assert_eq!(tree.chambers[0].data.congresses.len(), 2);
    assert_eq!(tree.chambers[1].data.congresses.len(), 1);
    assert_eq!(session(&tree, "house", 116, 1).rollcalls[0].vote_casts.len(), 2);
    assert_eq!(session(&tree, "house", 116, 2).rollcalls[0].vote_casts.len(), 1);
    assert_eq!(session(&tree, "house", 117, 1).rollcalls[0].vote_casts.len(), 1);
    assert_eq!(session(&tree, "senate", 116, 1).rollcalls[0].vote_casts.len(), 1);
    assert_eq!(find_chamber(&tree.chambers, "senate"), Some(1));
    assert_eq!(find_chamber(&tree.chambers, "Senate"), None);
}

#[test]
fn each_level_files_a_vote() {
    let first = vote("house", 116, 2, 7, "a");
    let mut session = SessionData::default();
    insert_into_session(&first, &mut session);
    insert_into_session(&vote("house", 1, 1, 7, "b"), &mut session);
    assert_eq!(session.rollcalls.len(), 1);
    assert_eq!(session.rollcalls[0].vote_casts.len(), 2);
    let mut congress = CongressData::default();
    insert_into_congress(&first, &mut congress);
    assert_eq!(congress.sessions.len(), 1);
    assert!(congress.sessions.contains_key(&2));
    let mut chamber = ChamberData::default();
    insert_into_chamber(&first, &mut chamber);
    assert!(chamber.congresses.contains_key(&116));
    assert!(RollCallData::default().vote_casts.is_empty());
    assert_eq!(UnifiedVote::default().chamber, "");
    assert_eq!(format!("{:?}", first.duplicate()), format!("{:?}", first));
}

#[test]
fn a_vote_is_written_and_read_back() {
    let written = vote("house", 65535, 255, 4294967295, "a \"quoted\" \\ name\n");
    let document = vote_to_json(&written);
    assert_eq!(
        to_text(&document),
        "{\"chamber\":\"house\",\"congress_number\":65535,\"legislator_id\":\"a \\\"quoted\\\" \\\\ name\\n\",\
         \"legislator_name\":\"A \\\"QUOTED\\\" \\\\ NAME\\n\",\"party\":\"D\",\"rollcall_number\":4294967295,\
         \"session_number\":255,\"state\":\"NY\",\"vote_cast\":\"Yea\",\
         \"vote_date\":\"date of a \\\"quoted\\\" \\\\ name\\n\",\
         \"vote_question\":\"question of a \\\"quoted\\\" \\\\ name\\n\",\
         \"vote_result\":\"result of a \\\"quoted\\\" \\\\ name\\n\"}"
    );
    let back = vote_from_json(&document).unwrap();
    assert_eq!(format!("{:?}", back), format!("{:?}", written));
    let reread = vote_from_json(&parse(&to_text(&document)).unwrap()).unwrap();
    assert_eq!(format!("{:?}", reread), format!("{:?}", written));
    assert!(vote_from_json(&parse("{}").unwrap()).is_none());
    let wide = to_text(&document).replace("65535", "65536");
    assert!(vote_from_json(&parse(&wide).unwrap()).is_none());
    let text = to_text(&document).replace("\"party\":\"D\"", "\"party\":1");
    assert!(vote_from_json(&parse(&text).unwrap()).is_none());
}

#[test]
fn tree_is_written_as_one_document() {
    let mut tree = CombinedData::default();
    assert_eq!(to_text(&combined_data_to_json(&tree)), "{\"chambers\":{}}");
    assert_eq!(serialize_combined_data(&tree), b"{\n  \"chambers\": {}\n}".to_vec());
    insert_all_into_database(
        &vec![vote("senate", 116, 2, 3, "a"), vote("house", 9, 1, 1, "b")],
        &mut tree,
    );
    let text = to_text(&combined_data_to_json(&tree));
    let value: serde_json::Value = serde_json::from_str(&text).unwrap();
    let record = &value["chambers"]["senate"]["congresses"]["116"]["sessions"]["2"]["rollcalls"][0];
    assert_eq!(record["rollcall_number"], 3);
    assert_eq!(record["vote_date"], "date of a");
    assert_eq!(record["vote_casts"][0]["legislator_id"], "a");
    assert_eq!(record["vote_casts"][0]["congress_number"], 116);
    assert_eq!(
        value["chambers"]["house"]["congresses"]["9"]["sessions"]["1"]["rollcalls"][0]
            ["vote_casts"][0]["legislator_name"],
        "B"
    );
    let bytes = serialize_combined_data(&tree);
    assert_eq!(bytes, serde_json::to_vec_pretty(&value).unwrap());
}

#[test]
fn tree_round_trips_through_its_document() {
    let mut tree = CombinedData::default();
    let votes = vec![
        vote("house", 116, 1, 1, "a"),
        vote("Senate", 116, 1, 1, "b"),
        vote("house", 117, 1, 1, "c"),
        vote("house", 116, 2, 5, "d"),
        vote("house", 116, 1, 1, "e"),
        vote("house", 116, 2, 4, "f"),
        vote("house", 0, 0, 0, "g"),
        vote("", 65535, 255, 4294967295, "h"),
    ];
    insert_all_into_database(&votes, &mut tree);
    let bytes = serialize_combined_data(&tree);
    let text = String::from_utf8(bytes.clone()).unwrap();
    let back = parse_combined_data(&text).unwrap();
    assert_eq!(serialize_combined_data(&back), bytes);
    let names: Vec<&str> = back.chambers.iter().map(|c| c.name.as_str()).collect();
    assert_eq!(names, vec!["", "house", "senate"]);
    for (chamber, congress, number) in
        [("house", 116, 1), ("house", 116, 2), ("house", 117, 1), ("senate", 116, 1), ("", 65535, 255)]
    {
        assert_eq!(
            format!("{:?}", session(&back, chamber, congress, number)),
            format!("{:?}", session(&tree, chamber, congress, number))
        );
    }
    let again = combined_data_from_json(&combined_data_to_json(&tree)).unwrap();
    assert_eq!(serialize_combined_data(&again), bytes);
    let empty = parse_combined_data("{\"chambers\": {}}").unwrap();
    assert!(empty.chambers.is_empty());
}

#[test]
fn only_a_tree_is_read_back() {
    assert!(parse_combined_data("{").is_none());
    assert!(parse_combined_data("{}").is_none());
    assert!(parse_combined_data("{\"chambers\": []}").is_none());
    assert!(parse_combined_data("{\"chambers\": {\"house\": {}}}").is_none());
    assert!(parse_combined_data(
        "{\"chambers\": {\"house\": {\"congresses\": {\"x\": {\"sessions\": {}}}}}}"
    )
    .is_none());
    assert!(parse_combined_data(
        "{\"chambers\": {\"house\": {\"congresses\": {\"1\": {\"sessions\": {\"256\": {\"rollcalls\": []}}}}}}}"
    )
    .is_none());
    let tree = parse_combined_data(
        "{\"chambers\": {\"house\": {\"congresses\": {\"1\": {\"sessions\": {\"255\": {\"rollcalls\": []}}}}}}}",
    )
    .unwrap();
    assert!(session(&tree, "house", 1, 255).rollcalls.is_empty());
}

#[test]
fn a_second_entry_of_one_name_is_not_part_of_the_tree() {
    let mut first = ChamberData::default();
    insert_into_chamber(&vote("house", 1, 1, 1, "a"), &mut first);
    let mut second = ChamberData::default();
    insert_into_chamber(&vote("house", 2, 2, 2, "b"), &mut second);
    let mut tree = CombinedData {
        chambers: vec![
            ChamberEntry { name: "house".to_string(), data: first },
            ChamberEntry { name: "house".to_string(), data: second },
        ],
    };
    let text = to_text(&combined_data_to_json(&tree));
    assert!(text.contains("\"legislator_id\":\"a\""));
    assert!(!text.contains("\"legislator_id\":\"b\""));
    assert!(insert_into_database(&vote("house", 1, 1, 1, "c"), &mut tree).is_ok());
    assert_eq!(tree.chambers.len(), 2);
    assert_eq!(session(&tree, "house", 1, 1).rollcalls[0].vote_casts.len(), 2);
}

#[test]
fn a_run_commits_after_the_last_file_and_not_before() {
    assert_eq!(Run::start(0), None);
    let mut run = Run::start(3).unwrap();
    assert_eq!(run, Run { total: 3, attempted: 0, stored: 0, open: true });
    assert_eq!(run.after_file(FileResult::Stored), RunAction::Continue);
    assert_eq!(run.after_file(FileResult::Skipped), RunAction::Continue);
    assert!(run.open);
    assert_eq!(run.after_file(FileResult::Stored), RunAction::Commit);
    assert_eq!(run, Run { total: 3, attempted: 3, stored: 2, open: false });
    let mut run = Run::start(1).unwrap();
    assert_eq!(run.after_file(FileResult::Skipped), RunAction::Commit);
    assert_eq!(run.stored, 0);
}

#[test]
fn a_run_rolls_back_as_soon_as_storing_fails() {
    let mut run = Run::start(3).unwrap();
    assert_eq!(run.after_file(FileResult::Stored), RunAction::Continue);
    assert_eq!(run.after_file(FileResult::StoreFailed), RunAction::Rollback);
    assert_eq!(run, Run { total: 3, attempted: 2, stored: 1, open: false });
    let mut run = Run::start(1).unwrap();
    assert_eq!(run.after_file(FileResult::StoreFailed), RunAction::Rollback);
    assert!(!run.open);
}
