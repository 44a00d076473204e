use eventsub_core::credentials::{
    contains_newline, dec_to_u64, load, parse_files, save, split_lines, u64_to_dec, Credentials,
};

fn creds(access: &str, refresh: &str, expires_at: u64, scopes: &[&str]) -> Credentials {
    Credentials {
        access_token: access.to_string(),
        refresh_token: refresh.to_string(),
        expires_at,
        scopes: scopes.iter().map(|s| s.to_string()).collect(),
    }
}

fn assert_same(a: &Credentials, b: &Credentials) {
    assert_eq!(a.access_token, b.access_token);
    assert_eq!(a.refresh_token, b.refresh_token);
    assert_eq!(a.expires_at, b.expires_at);
    assert_eq!(a.scopes, b.scopes);
}

#[test]
fn save_then_load_returns_the_same_credentials() {
    let c = creds("access1", "refresh2", 1700000000, &["chat:read", "chat:edit"]);
    let (access_file, refresh_file) = save(&c);
    let back = parse_files(&access_file, &refresh_file).unwrap();
    assert_same(&c, &back);
}

#[test]
fn round_trip_with_no_scopes_and_extreme_expiries() {
    for expires_at in [0u64, 1, 9, 10, u64::MAX] {
        let c = creds("a", "", expires_at, &[]);
        let (access_file, refresh_file) = save(&c);
        let back = parse_files(&access_file, &refresh_file).unwrap();
        assert_same(&c, &back);
    }
}

#[test]
fn round_trip_survives_a_simulated_restart() {
    // All persisted state is the two file bodies; a fresh parse from owned
    // copies of them is exactly what a new process would do.
    let c = creds("tok", "ref", 123456789, &["user:read:chat"]);
    let (access_file, refresh_file) = save(&c);
    let stored_a: String = access_file.clone();
    let stored_r: String = refresh_file.clone();
    drop(access_file);
    drop(refresh_file);
    let back = load(Some(stored_a.as_str()), Some(stored_r.as_str())).unwrap();
    assert_same(&c, &back);
}

#[test]
fn access_file_layout_is_token_expiry_then_scopes() {
    let c = creds("tok", "ref", 42, &["s1", "s2"]);
    let (access_file, refresh_file) = save(&c);
    assert_eq!(access_file, "tok\n42\ns1\ns2\n");
    assert_eq!(refresh_file, "ref");
}

#[test]
fn missing_files_mean_absent_credentials() {
    assert!(load(None, None).is_none());
    assert!(load(Some("tok\n42\n"), None).is_none());
    assert!(load(None, Some("ref")).is_none());
}

#[test]
fn malformed_access_file_is_rejected() {
    assert!(parse_files("", "ref").is_none());
    assert!(parse_files("tok\n", "ref").is_none());
    assert!(parse_files("tok\nnot-a-number\n", "ref").is_none());
    assert!(parse_files("tok\n\n", "ref").is_none());
    assert!(parse_files("tok\n99999999999999999999999\n", "ref").is_none());
}

#[test]
fn multi_line_refresh_file_is_rejected() {
    assert!(parse_files("tok\n42\n", "ref\nextra").is_none());
}

#[test]
fn decimal_rendering_is_exact() {
    assert_eq!(u64_to_dec(0), "0");
    assert_eq!(u64_to_dec(7), "7");
    assert_eq!(u64_to_dec(1700000000), "1700000000");
    assert_eq!(u64_to_dec(u64::MAX), "18446744073709551615");
}

#[test]
fn decimal_parsing_is_exact() {
    assert_eq!(dec_to_u64("0"), Some(0));
    assert_eq!(dec_to_u64("007"), Some(7));
    assert_eq!(dec_to_u64("18446744073709551615"), Some(u64::MAX));
    assert_eq!(dec_to_u64("18446744073709551616"), None);
    assert_eq!(dec_to_u64(""), None);
    assert_eq!(dec_to_u64("12a"), None);
    assert_eq!(dec_to_u64("-1"), None);
}

#[test]
fn line_splitting_matches_the_documented_form() {
    let lines = split_lines("a\nb\n");
    assert_eq!(lines, vec!["a".to_string(), "b".to_string()]);
    let dangling = split_lines("a\nb");
    assert_eq!(dangling, vec!["a".to_string(), "b".to_string()]);
    assert!(split_lines("").is_empty());
    assert!(contains_newline("a\nb"));
    assert!(!contains_newline("ab"));
}
