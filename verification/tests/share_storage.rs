use character_wizard::cli::collection_directory;
use character_wizard::share::{decode, encode, MAX_CODE_BYTES, MAX_JSON_BYTES};
use character_wizard::storage::{join_path_exec, CharacterRepository};

#[test]
fn rejects_untrusted_versions_alphabets_lengths_and_sizes() {
    assert_eq!(
        decode("cw2:AAAA").expect_err("unsupported version"),
        "unsupported character share-code version"
    );
    assert_eq!(
        decode("cw1:AA=A").expect_err("padding is forbidden"),
        "character share payload is not valid base64url"
    );
    assert_eq!(
        decode("cw1:A").expect_err("invalid payload length"),
        "character share payload has an invalid length"
    );
    let oversized = format!("cw1:{}", "A".repeat(MAX_CODE_BYTES));
    assert!(decode(&oversized).expect_err("oversized").contains("input limit"));
}

#[test]
fn default_collection_is_the_current_directory() {
    let repository = CharacterRepository::new(None);
    assert_eq!(repository.directory(), ".");
    assert_eq!(repository.resolve("Legolas", false), "./Legolas.json");
}

#[test]
fn share_code_round_trips_json_text() {
    let json = r#"{"name":"Binary Smoke Test","level":1}"#;
    let code = encode(json.as_bytes()).expect("encode");
    assert!(code.starts_with("cw1:"));
    assert!(!code.contains('='));
    assert_eq!(decode(&code), Ok(json.to_string()));
}

#[test]
fn share_code_uses_the_url_safe_alphabet() {
    assert_eq!(encode(b"Man").expect("encode"), "cw1:TWFu");
    assert_eq!(encode(&[0xfb, 0xff]).expect("encode"), "cw1:-_8");
    assert_eq!(encode(b"M").expect("encode"), "cw1:TQ");
    assert_eq!(decode("  cw1:TWFu \n"), Ok("Man".to_string()));
}

#[test]
fn share_code_refuses_oversized_and_malformed_input() {
    let large = vec![b'a'; MAX_JSON_BYTES + 1];
    assert_eq!(
        encode(&large).expect_err("too large"),
        "character JSON exceeds the 192 KiB share limit"
    );
    assert_eq!(
        decode("cw1:").expect_err("empty"),
        "character share code has an empty payload"
    );
    assert_eq!(
        decode("xyz").expect_err("no prefix"),
        "character share code must start with cw1:"
    );
    assert_eq!(
        decode("cw1:_w").expect_err("not utf-8"),
        "character share payload is not UTF-8 JSON"
    );
}

#[test]
fn bare_names_join_the_collection_and_paths_stay() {
    let repository = CharacterRepository::new(Some("party"));
    assert_eq!(repository.resolve("legolas", false), "party/legolas.json");
    assert_eq!(repository.resolve("legolas.json", false), "legolas.json");
    assert_eq!(repository.resolve("records/legolas", false), "records/legolas");
    assert_eq!(repository.resolve("legolas", true), "legolas");
    assert_eq!(collection_directory(None), ".");
    assert_eq!(collection_directory(Some("party")), "party");
    assert_eq!(join_path_exec("party", "legolas.json"), "party/legolas.json");
}
