use constellations::urls::{redact_query_pairs, redact_url};

#[test]
fn redacts_code_and_state() {
    assert_eq!(
        redact_url("https://example.com/cb?code=abc&state=xyz&x=1").as_deref(),
        Some("https://example.com/cb?code=%5BREDACTED%5D&state=%5BREDACTED%5D&x=1")
    );
}

#[test]
fn url_without_query_is_unchanged() {
    assert_eq!(redact_url("https://example.com/a").as_deref(), Some("https://example.com/a"));
}

#[test]
fn fragment_is_kept_behind_the_query() {
    assert_eq!(
        redact_url("https://e.com/?code=1#frag").as_deref(),
        Some("https://e.com/?code=%5BREDACTED%5D#frag")
    );
}

#[test]
fn other_parameters_keep_their_values() {
    assert_eq!(
        redact_url("https://e.com/p?a=1&b=two").as_deref(),
        Some("https://e.com/p?a=1&b=two")
    );
}

#[test]
fn text_that_is_no_url_gives_none() {
    assert_eq!(redact_url("not a url"), None);
}

#[test]
fn pairs_are_redacted_in_order() {
    let pairs = vec![
        ("state".to_string(), "s".to_string()),
        ("keep".to_string(), "k".to_string()),
        ("code".to_string(), "c".to_string()),
    ];
    let r = redact_query_pairs(pairs);
    assert_eq!(
        r,
        vec![
            ("state".to_string(), "[REDACTED]".to_string()),
            ("keep".to_string(), "k".to_string()),
            ("code".to_string(), "[REDACTED]".to_string()),
        ]
    );
}
