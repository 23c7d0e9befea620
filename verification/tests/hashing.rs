use congress_rolls::sqllite::{generate_hash, member_hash};

#[test]
fn hash_is_sha256_in_lower_case_hexadecimal() {
    assert_eq!(
        generate_hash(""),
        "e3b0c44298fc1c149afbf4c8996fb92427ae41e4649b934ca495991b7852b855"
    );
    assert_eq!(
        generate_hash("abc"),
        "ba7816bf8f01cfea414140de5dae2223b00361a396177a9cb410ff61f20015ad"
    );
    assert_eq!(generate_hash("Yea").len(), 64);
    assert_ne!(generate_hash("Yea"), generate_hash("Nay"));
}

#[test]
fn identity_hash_is_the_hash_of_the_normalized_triple() {
    let key = serde_json::to_string(&("smith", "D", "NY")).unwrap();
    assert_eq!(key, "[\"smith\",\"D\",\"NY\"]");
    assert_eq!(member_hash("Smith", "D", "NY"), generate_hash(&key));
    let key = serde_json::to_string(&("o\"brien", "R", "T\\X")).unwrap();
    assert_eq!(member_hash("O\"Brien", "R", "T\\X"), generate_hash(&key));
}

#[test]
fn identity_hash_ignores_case_and_surrounding_whitespace_of_the_name() {
    let plain = member_hash("smith", "D", "NY");
    assert_eq!(member_hash("Smith", "D", "NY"), plain);
    assert_eq!(member_hash("SMITH", "D", "NY"), plain);
    assert_eq!(member_hash("  Smith\t", "D", "NY"), plain);
    assert_eq!(member_hash("\n sMiTh \u{a0}", "D", "NY"), plain);
    // whitespace within the name counts
    assert_ne!(member_hash("Van Hollen", "D", "MD"), member_hash("VanHollen", "D", "MD"));
}

#[test]
fn identity_hash_takes_party_and_state_as_given() {
    let plain = member_hash("smith", "D", "NY");
    assert_ne!(member_hash("smith", "d", "NY"), plain);
    assert_ne!(member_hash("smith", "D", "ny"), plain);
    assert_ne!(member_hash("smith", " D", "NY"), plain);
    assert_ne!(member_hash("smith", "NY", "D"), plain);
    assert_ne!(member_hash("smyth", "D", "NY"), plain);
}
