use congress_rolls::paths::{
    parse_dated_vote_path, parse_vote_path, split_text, trim_suffix, PathError,
};
use congress_rolls::text::{
    char_to_digit, chars_of, decimal_text, digit_to_char, hex_text, parse_bounded, trim,
};

#[test]
fn trim_removes_whitespace_at_both_ends_only() {
    assert_eq!(trim("  Smith \t\n"), "Smith");
    assert_eq!(trim("Van Hollen"), "Van Hollen");
    assert_eq!(trim(" a  b "), "a  b");
    assert_eq!(trim(""), "");
    assert_eq!(trim(" \u{a0}\u{2003} "), "");
    assert_eq!(trim("\u{3000}é\u{3000}"), "é");
}

#[test]
fn decimal_notation_has_no_leading_zeros() {
    assert_eq!(decimal_text(0), "0");
    assert_eq!(decimal_text(7), "7");
    assert_eq!(decimal_text(10), "10");
    assert_eq!(decimal_text(2020), "2020");
    assert_eq!(decimal_text(u64::MAX), "18446744073709551615");
}

#[test]
fn numbers_are_read_as_the_standard_library_reads_them() {
    assert_eq!(parse_bounded("0", 255), Some(0));
    assert_eq!(parse_bounded("255", 255), Some(255));
    assert_eq!(parse_bounded("256", 255), None);
    assert_eq!(parse_bounded("007", 255), Some(7));
    assert_eq!(parse_bounded("+5", 255), Some(5));
    assert_eq!(parse_bounded("+", 255), None);
    assert_eq!(parse_bounded("", 255), None);
    assert_eq!(parse_bounded("-1", 255), None);
    assert_eq!(parse_bounded("1 ", 255), None);
    assert_eq!(parse_bounded("1.0", 255), None);
    assert_eq!(parse_bounded("４", 255), None);
    assert_eq!(parse_bounded("4294967295", 0xffff_ffff), Some(4294967295));
    assert_eq!(parse_bounded("4294967296", 0xffff_ffff), None);
    assert_eq!(parse_bounded("18446744073709551615", u64::MAX), Some(u64::MAX));
    assert_eq!(parse_bounded("18446744073709551616", u64::MAX), None);
    assert_eq!(parse_bounded("99999999999999999999999", u64::MAX), None);
    for n in [0u64, 9, 10, 99, 100, 65535, 4294967295] {
        assert_eq!(parse_bounded(&decimal_text(n), u64::MAX), Some(n));
        assert_eq!("0".parse::<u64>().ok(), parse_bounded("0", u64::MAX));
    }
    for text in ["12", "+12", "-12", "", "+", "1x", "0012", " 12"] {
        assert_eq!(parse_bounded(text, 0xffff), text.parse::<u16>().ok().map(u64::from));
    }
}

#[test]
fn digits_and_characters() {
    assert_eq!(digit_to_char(0), '0');
    assert_eq!(digit_to_char(9), '9');
    assert_eq!(digit_to_char(10), 'a');
    assert_eq!(digit_to_char(15), 'f');
    assert_eq!(char_to_digit('0'), Some(0));
    assert_eq!(char_to_digit('9'), Some(9));
    assert_eq!(char_to_digit('a'), None);
    assert_eq!(chars_of("añb"), vec!['a', 'ñ', 'b']);
}

#[test]
fn hexadecimal_notation_is_lower_case_two_digits_a_byte() {
    assert_eq!(hex_text(&vec![]), "");
    assert_eq!(hex_text(&vec![0x00, 0x0f, 0xa0, 0xff]), "000fa0ff");
}

#[test]
fn texts_are_split_at_every_separator() {
    assert_eq!(split_text("a/b/c", '/'), vec!["a", "b", "c"]);
    assert_eq!(split_text("", '/'), vec![""]);
    assert_eq!(split_text("/", '/'), vec!["", ""]);
    assert_eq!(split_text("a//b/", '/'), vec!["a", "", "b", ""]);
    assert_eq!(split_text("2020_1", '_'), vec!["2020", "1"]);
    for text in ["", "a", "/a", "a/", "//", "data/json/116/house/2/2020_1.json"] {
        let expected: Vec<String> = text.split('/').map(str::to_string).collect();
        assert_eq!(split_text(text, '/'), expected);
    }
}

#[test]
fn every_trailing_suffix_is_removed() {
    assert_eq!(trim_suffix("2020_1.json", ".json"), "2020_1");
    assert_eq!(trim_suffix("2020_1.json.json", ".json"), "2020_1");
    assert_eq!(trim_suffix("2020_1", ".json"), "2020_1");
    assert_eq!(trim_suffix(".json", ".json"), "");
    assert_eq!(trim_suffix("json", ".json"), "json");
    assert_eq!(trim_suffix("a.jsonx", ".json"), "a.jsonx");
    assert_eq!(trim_suffix("abc", ""), "abc");
    for (text, suffix) in [("aaa", "a"), ("abab", "ab"), ("xab", "ab"), ("b", "ab")] {
        assert_eq!(trim_suffix(text, suffix), text.trim_end_matches(suffix));
    }
}

#[test]
fn paths_name_congress_chamber_session_and_roll_call() {
    let place = parse_vote_path("data/json/116/House/2/2020_1.json").unwrap();
    assert_eq!(place.congress_number, 116);
    assert_eq!(place.chamber, "house");
    assert_eq!(place.session_number, 2);
    assert_eq!(place.rollcall_number, 1);
    // the roll call is what follows the last underscore
    let place = parse_vote_path("data/json/116/senate/1/a_b_77.json").unwrap();
    assert_eq!(place.rollcall_number, 77);
    let place = parse_vote_path("data/json/116/senate/1/12.json").unwrap();
    assert_eq!(place.rollcall_number, 12);
}

#[test]
fn paths_are_rejected_with_the_first_fault() {
    assert_eq!(
        parse_vote_path("data/json/116/house/2020_1.json").err(),
        Some(PathError::UnexpectedFormat)
    );
    assert_eq!(
        parse_vote_path("x/data/json/116/house/2/2020_1.json").err(),
        Some(PathError::UnexpectedFormat)
    );
    assert_eq!(
        parse_vote_path("data/json/abc/house/x/2020_y.json").err(),
        Some(PathError::InvalidCongress)
    );
    assert_eq!(
        parse_vote_path("data/json/70000/house/2/2020_1.json").err(),
        Some(PathError::InvalidCongress)
    );
    assert_eq!(
        parse_vote_path("data/json/116/house/256/2020_1.json").err(),
        Some(PathError::InvalidSession)
    );
    assert_eq!(
        parse_vote_path("data/json/116/house/2/2020_x.json").err(),
        Some(PathError::InvalidRollcall)
    );
    assert_eq!(
        parse_vote_path("data/json/116/house/2/2020_.json").err(),
        Some(PathError::InvalidRollcall)
    );
}

#[test]
fn dated_paths_need_year_and_roll_call() {
    let place = parse_dated_vote_path("data/json/118/Senate/2/2024_255.json").unwrap();
    assert_eq!(place.congress_number, 118);
    assert_eq!(place.session_number, 2);
    assert_eq!(place.rollcall_number, 255);
    assert_eq!(place.chamber, "senate");
    assert_eq!(place.year, 2024);
    assert_eq!(
        parse_dated_vote_path("data/json/118/senate/2/255.json").err(),
        Some(PathError::InvalidFileName)
    );
    assert_eq!(
        parse_dated_vote_path("data/json/118/senate/2/a_2024_255.json").err(),
        Some(PathError::InvalidFileName)
    );
    assert_eq!(
        parse_dated_vote_path("data/json/118/senate/2/year_255.json").err(),
        Some(PathError::InvalidYearOrRollcall)
    );
    assert_eq!(
        parse_dated_vote_path("data/json/118/senate/2/2024_x.json").err(),
        Some(PathError::InvalidYearOrRollcall)
    );
    assert_eq!(
        parse_dated_vote_path("data/json/118/senate/2024_255.json").err(),
        Some(PathError::UnexpectedFormat)
    );
    assert_eq!(
        parse_dated_vote_path("data/json/x/senate/2/2024_255.json").err(),
        Some(PathError::InvalidCongress)
    );
    assert_eq!(
        parse_dated_vote_path("data/json/118/senate/x/2024_255.json").err(),
        Some(PathError::InvalidSession)
    );
}
