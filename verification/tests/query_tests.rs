use oauth_pkce::query::{find_last_param, parse_query_pairs, pct_decode, str_eq, trim_ws};

#[test]
fn percent_escapes_decode_to_their_byte() {
    assert_eq!(pct_decode("a%20b"), "a b");
    assert_eq!(pct_decode("%41%42"), "AB");
    assert_eq!(pct_decode("%2b"), "+");
}

#[test]
fn plus_decodes_to_space() {
    assert_eq!(pct_decode("a+b"), "a b");
}

#[test]
fn malformed_escapes_stand_verbatim() {
    assert_eq!(pct_decode("%G1"), "%G1");
    assert_eq!(pct_decode("%4"), "%4");
    assert_eq!(pct_decode("100%"), "100%");
}

#[test]
fn pairs_split_on_ampersand_and_first_equals() {
    let pairs = parse_query_pairs("code=ABC&state=S1");
    assert_eq!(
        pairs,
        vec![
            ("code".to_string(), "ABC".to_string()),
            ("state".to_string(), "S1".to_string()),
        ]
    );
}

#[test]
fn empty_members_are_skipped() {
    let pairs = parse_query_pairs("&a=1&&b=2&");
    assert_eq!(
        pairs,
        vec![
            ("a".to_string(), "1".to_string()),
            ("b".to_string(), "2".to_string()),
        ]
    );
}

#[test]
fn member_without_equals_has_empty_value() {
    let pairs = parse_query_pairs("flag&x=1");
    assert_eq!(
        pairs,
        vec![
            ("flag".to_string(), "".to_string()),
            ("x".to_string(), "1".to_string()),
        ]
    );
}

#[test]
fn values_decode_inside_members() {
    let pairs = parse_query_pairs("q=a+b%21&r=%3D");
    assert_eq!(
        pairs,
        vec![
            ("q".to_string(), "a b!".to_string()),
            ("r".to_string(), "=".to_string()),
        ]
    );
}

#[test]
fn parsing_agrees_with_the_url_crate() {
    let input = "a=1&&b=two+words&c%20d=%21&flag";
    let ours = parse_query_pairs(input);
    let theirs: Vec<(String, String)> = url::form_urlencoded::parse(input.as_bytes())
        .map(|(k, v)| (k.into_owned(), v.into_owned()))
        .collect();
    assert_eq!(ours, theirs);
}

#[test]
fn last_occurrence_wins() {
    let pairs = parse_query_pairs("code=first&code=second");
    assert_eq!(
        find_last_param(&pairs, "code"),
        Some("second".to_string())
    );
    assert_eq!(find_last_param(&pairs, "state"), None);
}

#[test]
fn trim_removes_surrounding_whitespace() {
    assert_eq!(trim_ws("  x \r\n"), "x");
    assert_eq!(trim_ws("\t"), "");
    assert_eq!(trim_ws("a b"), "a b");
    assert_eq!(trim_ws(""), "");
}

#[test]
fn decoding_recovers_ascii_encodings() {
    let inputs = ["", "plain", "a b+c", "k=v&x", "100% sure?", "*-._ ~"];
    for s in inputs {
        assert_eq!(pct_decode(&oauth_pkce::encoding::form_encode_str(s)), s);
    }
}

#[test]
fn str_eq_compares_contents() {
    assert!(str_eq("abc", "abc"));
    assert!(!str_eq("abc", "abd"));
    assert!(!str_eq("abc", "abcd"));
}
