use starlord::link::{all_digits, extract_timestamp, timestamp_from_captures, LinkError};

fn pair(s: &str, us: &str) -> Option<(String, String)> {
    Some((s.to_string(), us.to_string()))
}

#[test]
fn extracts_timestamp_from_bare_permalink() {
    let r = extract_timestamp("https://spychat.slack.com/archives/general/p1482786363038760");
    assert_eq!(r, Ok("1482786363.038760".to_string()));
}

#[test]
fn extracts_timestamp_from_permalink_inside_text() {
    let r = extract_timestamp(
        "please pen <https://spychat.slack.com/archives/C024BE91L/p1482786363038760> for me",
    );
    assert_eq!(r, Ok("1482786363.038760".to_string()));
}

#[test]
fn extracts_timestamp_with_trailing_text() {
    let r = extract_timestamp("https://a.slack.com/archives/b/p1482786363038760?thread_ts=1");
    assert_eq!(r, Ok("1482786363.038760".to_string()));
}

#[test]
fn takes_the_first_of_two_permalinks() {
    let r = extract_timestamp(
        "https://a.slack.com/archives/b/p1111111111222222 https://a.slack.com/archives/b/p1482786363038760",
    );
    assert_eq!(r, Ok("1111111111.222222".to_string()));
}

#[test]
fn uses_only_the_first_sixteen_digits() {
    let r = extract_timestamp("https://a.slack.com/archives/b/p14827863630387609999");
    assert_eq!(r, Ok("1482786363.038760".to_string()));
}

#[test]
fn channel_in_link_is_not_checked() {
    let r = extract_timestamp("https://a.slack.com/archives/some_other_channel/p0000000000000001");
    assert_eq!(r, Ok("0000000000.000001".to_string()));
}

#[test]
fn empty_text_is_malformed() {
    assert_eq!(extract_timestamp(""), Err(LinkError::MalformedLink));
}

#[test]
fn text_without_link_is_malformed() {
    assert_eq!(extract_timestamp("star this please"), Err(LinkError::MalformedLink));
}

#[test]
fn fifteen_digits_are_malformed() {
    assert_eq!(
        extract_timestamp("https://a.slack.com/archives/b/p148278636303876"),
        Err(LinkError::MalformedLink)
    );
}

#[test]
fn other_host_is_malformed() {
    assert_eq!(
        extract_timestamp("https://a.example.com/archives/b/p1482786363038760"),
        Err(LinkError::MalformedLink)
    );
}

#[test]
fn plain_http_is_malformed() {
    assert_eq!(
        extract_timestamp("http://a.slack.com/archives/b/p1482786363038760"),
        Err(LinkError::MalformedLink)
    );
}

#[test]
fn missing_p_is_malformed() {
    assert_eq!(
        extract_timestamp("https://a.slack.com/archives/b/1482786363038760"),
        Err(LinkError::MalformedLink)
    );
}

#[test]
fn digits_outside_ascii_are_malformed() {
    // Sixteen Arabic-Indic digits: digits to the pattern, but not a timestamp.
    let text = "https://a.slack.com/archives/b/p\u{661}\u{664}\u{668}\u{662}\u{667}\u{668}\u{666}\u{663}\u{666}\u{663}\u{660}\u{663}\u{668}\u{667}\u{666}\u{660}";
    assert_eq!(extract_timestamp(text), Err(LinkError::MalformedLink));
}

#[test]
fn captures_join_with_a_dot() {
    assert_eq!(
        timestamp_from_captures(pair("1482786363", "038760")),
        Some("1482786363.038760".to_string())
    );
}

#[test]
fn captures_of_wrong_length_are_refused() {
    assert_eq!(timestamp_from_captures(pair("148278636", "038760")), None);
    assert_eq!(timestamp_from_captures(pair("14827863630", "038760")), None);
    assert_eq!(timestamp_from_captures(pair("1482786363", "03876")), None);
    assert_eq!(timestamp_from_captures(pair("1482786363", "0387600")), None);
    assert_eq!(timestamp_from_captures(pair("", "")), None);
}

#[test]
fn captures_with_other_characters_are_refused() {
    assert_eq!(timestamp_from_captures(pair("14827x6363", "038760")), None);
    assert_eq!(timestamp_from_captures(pair("1482786363", "03876 ")), None);
    assert_eq!(timestamp_from_captures(pair("148278636\u{663}", "038760")), None);
}

#[test]
fn no_captures_give_no_timestamp() {
    assert_eq!(timestamp_from_captures(None), None);
}

#[test]
fn all_digits_counts_characters() {
    assert!(all_digits("0123456789", 10));
    assert!(all_digits("", 0));
    assert!(!all_digits("0123456789", 9));
    assert!(!all_digits("01234", 6));
    assert!(!all_digits("0123/5", 6));
    assert!(!all_digits("0123:5", 6));
    assert!(!all_digits("\u{661}", 1));
}
