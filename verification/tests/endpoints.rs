use congress_rolls::endpoints::CongressChamber;
use congress_rolls::endpoints::CongressEndpoint as Congress;
use congress_rolls::{CURRENT_CONGRESS, OLDEST_CONGRESS};

#[test]
fn test_congress() {
    let congress = Congress::new("house", 116, 2, 1);
    assert_eq!(congress.to_year(), 2020);
    assert_eq!(congress.to_string(), "https://clerk.house.gov/evs/2020/roll001.xml");

    let congress = Congress::new("senate", 116, 2, 1);
    assert_eq!(congress.to_year(), 2020);
    assert_eq!(
        congress.to_string(),
        "https://www.senate.gov/legislative/LIS/roll_call_votes/vote1162/vote_116_2_00001.xml"
    );
}

#[test]
fn test_congress_current() {
    let congress = Congress::current("house");
    assert_eq!(congress.to_year(), 2024);
    assert_eq!(congress.to_string(), "https://clerk.house.gov/evs/2024/roll255.xml");

    let congress = Congress::current("senate");
    assert_eq!(congress.to_year(), 2024);
    assert_eq!(
        congress.to_string(),
        "https://www.senate.gov/legislative/LIS/roll_call_votes/vote1182/vote_118_2_00255.xml"
    );
}

#[test]
fn test_congress_display() {
    let congress = Congress::new("house", 116, 2, 1);
    assert_eq!(congress.to_string(), "https://clerk.house.gov/evs/2020/roll001.xml");

    let congress = Congress::new("senate", 116, 2, 1);
    assert_eq!(
        congress.to_string(),
        "https://www.senate.gov/legislative/LIS/roll_call_votes/vote1162/vote_116_2_00001.xml"
    );
}

#[test]
fn test_all_congresses() {
    let max_congress = CURRENT_CONGRESS;
    let min_congress = OLDEST_CONGRESS;
    let current_roll_senate = 255;
    let current_roll_house = 455;

    for congress in min_congress..=max_congress {
        // session 1 and 2
        for session in 1..3 {
            println!("Congress: {}, Session: {}", congress, session);
            println!("\n\n\n");
            println!("Senate");
            println!("-------------------");
            for roll in 1..=current_roll_senate {
                let congress = Congress::new("senate", congress, session, roll);
                println!("{}", congress.to_string());
            }
            println!("\n\n\n");
            println!("House");
            println!("-------------------");
            for roll in 1..=current_roll_house {
                let congress = Congress::new("house", congress, session, roll);
                println!("{}", congress.to_string());
            }
        }
    }
}

#[test]
fn chamber_names_are_read_in_any_case() {
    assert_eq!(Congress::new("SENATE", 116, 1, 7).chamber, CongressChamber::Senate);
    assert_eq!(Congress::new("Senate", 116, 1, 7).chamber, CongressChamber::Senate);
    assert_eq!(Congress::new("house", 116, 1, 7).chamber, CongressChamber::House);
    // every name that is not the Senate's stands for the House
    assert_eq!(Congress::new("lords", 116, 1, 7).chamber, CongressChamber::House);
    assert_eq!(CongressChamber::House.to_string(), "house");
    assert_eq!(CongressChamber::Senate.to_string(), "senate");
    assert_eq!("senate".parse::<CongressChamber>(), Ok(CongressChamber::Senate));
    assert_eq!("HOUSE".parse::<CongressChamber>(), Ok(CongressChamber::House));
    assert_eq!(
        "lords".parse::<CongressChamber>(),
        Err("Invalid chamber: lords".to_string())
    );
}

#[test]
fn builder_sets_each_field() {
    let mut congress = Congress::current("house");
    congress.chamber("senate");
    assert!(congress.number(117).is_ok());
    assert!(congress.session(1).is_ok());
    congress.roll_call(42);
    let built = congress.build();
    assert_eq!(built, Congress::new("senate", 117, 1, 42));
    assert_eq!(built.to_year(), 2021);
    assert_eq!(*congress.as_mut(), built);
}

#[test]
fn builder_rejects_numbers_out_of_range() {
    let mut congress = Congress::current("house");
    let before = congress;
    assert_eq!(congress.number(100).err(), Some("Invalid Congress number: 100".to_string()));
    assert_eq!(congress.number(119).err(), Some("Invalid Congress number: 119".to_string()));
    assert_eq!(congress.session(0).err(), Some("Invalid Congress session: 0".to_string()));
    assert_eq!(congress.session(3).err(), Some("Invalid Congress session: 3".to_string()));
    assert_eq!(congress, before);
    assert!(congress.number(101).is_ok());
    assert!(congress.number(118).is_ok());
}

#[test]
fn years_follow_congress_and_session() {
    assert_eq!(Congress::new("house", 101, 1, 1).to_year(), 1989);
    assert_eq!(Congress::new("house", 101, 2, 1).to_year(), 1990);
    assert_eq!(Congress::new("house", 106, 2, 1).to_year(), 2000);
    assert_eq!(Congress::new("house", 120, 2, 1).to_year(), 2028);
    assert!(Congress::new("house", 120, 2, 1).is_dated());
    assert!(!Congress::new("house", 121, 1, 1).is_dated());
    assert!(!Congress::new("house", 100, 1, 1).is_dated());
    assert!(!Congress::new("house", 110, 3, 1).is_dated());
}

#[test]
fn roll_numbers_are_padded_not_cut() {
    assert_eq!(
        Congress::new("house", 116, 2, 1234).to_string(),
        "https://clerk.house.gov/evs/2020/roll1234.xml"
    );
    assert_eq!(
        Congress::new("senate", 116, 2, 123456).to_string(),
        "https://www.senate.gov/legislative/LIS/roll_call_votes/vote1162/vote_116_2_123456.xml"
    );
    // the Senate files by congress and session, whatever they are
    assert_eq!(
        Congress::new("senate", 7, 9, 0).to_string(),
        "https://www.senate.gov/legislative/LIS/roll_call_votes/vote79/vote_7_9_00000.xml"
    );
}
