use constellations::text::{contains_ignore_ascii_case, fuzzy_match_ignore_case};

#[test]
fn contains_ascii_ignores_case() {
    assert!(contains_ignore_ascii_case("Alpha Room", "alpha", None));
    assert!(contains_ignore_ascii_case("!room2:matrix.org", "!ROOM2", None));
    assert!(!contains_ignore_ascii_case("Alpha Room", "gamma", None));
    assert!(contains_ignore_ascii_case("anything", "", None));
    assert!(!contains_ignore_ascii_case("ab", "abc", None));
}

#[test]
fn contains_non_ascii_uses_lowercase() {
    assert!(contains_ignore_ascii_case("ÄITI", "äi", None));
    assert!(contains_ignore_ascii_case("ÄITI", "ÄI", Some("äi")));
    assert!(!contains_ignore_ascii_case("Öljy", "äi", None));
}

#[test]
fn fuzzy_matches_subsequences() {
    assert!(fuzzy_match_ignore_case("Constellations", "cst"));
    assert!(fuzzy_match_ignore_case("Constellations", "CONS"));
    assert!(!fuzzy_match_ignore_case("Constellations", "xyz"));
    assert!(fuzzy_match_ignore_case("", ""));
    assert!(!fuzzy_match_ignore_case("ab", "ba"));
}
