use cw_user::state::{build_session_key, build_session_key_preimage, session_key_of_digest};

fn key(addr: &str, user_id: u64, seed: &str) -> String {
    build_session_key(&addr.to_string(), user_id, &seed.to_string())
}

#[test]
fn key_preimage_is_id_then_address_then_seed() {
    let bytes = build_session_key_preimage(&"ab".to_string(), 258, &"c".to_string());
    assert_eq!(bytes, vec![2, 1, 0, 0, 0, 0, 0, 0, b'a', b'b', b'c']);
}

#[test]
fn key_preimage_of_empty_texts_is_the_id_alone() {
    let bytes = build_session_key_preimage(&String::new(), u64::MAX, &String::new());
    assert_eq!(bytes, vec![255; 8]);
}

#[test]
fn key_preimage_holds_texts_as_utf8() {
    let bytes = build_session_key_preimage(&"é".to_string(), 0, &"€".to_string());
    assert_eq!(bytes, vec![0, 0, 0, 0, 0, 0, 0, 0, 0xc3, 0xa9, 0xe2, 0x82, 0xac]);
}

#[test]
fn key_of_digest_is_upper_case_hex() {
    assert_eq!(session_key_of_digest(&vec![0x00, 0x1f, 0xab, 0xff]), "001FABFF");
    assert_eq!(session_key_of_digest(&vec![0x9a, 0x0e]), "9A0E");
    assert_eq!(session_key_of_digest(&vec![]), "");
}

#[test]
fn session_key_is_sha512_in_upper_case_hex() {
    assert_eq!(
        key("", 0, ""),
        "1B7409CCF0D5A34D3A77EAABFA9FE27427655BE9297127EE9522AA1BF4046D4F\
         945983678169CB1A7348EDCAC47EF0D9E2C924130E5BCC5F0D94937852C42F1B"
    );
    assert_eq!(
        key("alice", 1, "s1"),
        "4FF34B9F395C25CA09C86FF71F2BE140469B704B56A90339F09C72A90D167B5D\
         2E627BB9B19125A375746AE60489774530AB8FD6B30E3D4304C9AC0BC6E1BF53"
    );
}

#[test]
fn session_key_is_the_same_for_the_same_inputs() {
    assert_eq!(key("alice", 1, "s1"), key("alice", 1, "s1"));
    assert_eq!(key("alice", 1, "s1").len(), 128);
}

#[test]
fn session_key_changes_with_each_input() {
    let base = key("alice", 1, "s1");
    assert_eq!(
        key("alice", 1, "s2"),
        "0A523F6EDF3DB2E01FB11FAA9B69B4A834B25AED9E62ED6277DEE00BCCC1E441\
         37B9EB5591B993DA8DCFA2EDF87110BA11060883F1CE08555FE259A278ED3A75"
    );
    assert_eq!(
        key("alice", 2, "s1"),
        "AE1A1AA0D71CDA9207279E4D537A34860D541F72DA10AA6CA4D062541B719174\
         77786D0E87093BD62A3C0BFFE97355B0800EA49DC2BA86CE97062AD805812487"
    );
    assert_eq!(
        key("bob", 1, "s1"),
        "E3908E639BE1B9C86483BF089AFA95D97EF49DFBC787E14980820FF846FF89EE\
         581380333AB9F5D562532E41B32BF76D04F7A68B563C852CE8024C32B74D08CE"
    );
    assert_ne!(base, key("alice", 1, "s2"));
    assert_ne!(base, key("alice", 2, "s1"));
    assert_ne!(base, key("bob", 1, "s1"));
}

#[test]
fn address_and_seed_are_digested_one_after_the_other() {
    assert_eq!(key("ab", 1, "c"), key("a", 1, "bc"));
}
