use constellations::emoji::{choose_emojis, emoji_picker_grid, search_emojis, EmojiEntry, EmojiGroup};

fn entry(glyph: &str, name: &str, shortcodes: &[&str]) -> EmojiEntry {
    EmojiEntry {
        glyph: glyph.to_string(),
        name: name.to_string(),
        shortcodes: shortcodes.iter().map(|s| s.to_string()).collect(),
    }
}

fn table() -> Vec<EmojiEntry> {
    vec![
        entry("😀", "grinning face", &["grinning"]),
        entry("😄", "grinning face with smiling eyes", &["smile"]),
        entry("🐱", "cat face", &["cat"]),
        entry("🎉", "party popper", &["tada"]),
    ]
}

#[test]
fn search_matches_names_and_shortcodes_ignoring_case() {
    let t = table();
    assert_eq!(search_emojis(&t, "GRIN"), vec!["😀".to_string(), "😄".to_string()]);
    assert_eq!(search_emojis(&t, "tada"), vec!["🎉".to_string()]);
    assert!(search_emojis(&t, "dog").is_empty());
}

#[test]
fn search_stops_at_one_hundred() {
    let t: Vec<EmojiEntry> = (0..150).map(|i| entry(&format!("e{}", i), "star", &[])).collect();
    let found = search_emojis(&t, "star");
    assert_eq!(found.len(), 100);
    assert_eq!(found[0], "e0");
    assert_eq!(found[99], "e99");
}

#[test]
fn empty_query_shows_the_selected_group() {
    let t = table();
    let g = choose_emojis(&t, "", None);
    assert!(g.emojis.is_empty());
    assert!(!g.no_results);
    let g = choose_emojis(&t, "", Some(EmojiGroup::SmileysAndEmotion));
    assert!(!g.emojis.is_empty());
    assert_eq!(g.emojis[0], "😀");
}

#[test]
fn a_search_without_matches_says_so() {
    let t = table();
    let g = choose_emojis(&t, "no such thing", None);
    assert!(g.emojis.is_empty());
    assert!(g.no_results);
    let g = choose_emojis(&t, "cat", Some(EmojiGroup::Flags));
    assert_eq!(g.emojis, vec!["🐱".to_string()]);
    assert!(!g.no_results);
}

#[test]
fn picker_searches_the_whole_table() {
    let g = emoji_picker_grid("smile", None);
    assert!(g.emojis.contains(&"😄".to_string()));
    assert!(g.emojis.len() <= 100);
    let g = emoji_picker_grid("qqqqqqqq", None);
    assert!(g.no_results);
    let g = emoji_picker_grid("", Some(EmojiGroup::Flags));
    assert!(g.emojis.contains(&"🏁".to_string()));
}

#[test]
fn search_follows_the_group_by_group_table() {
    let groups = [
        EmojiGroup::SmileysAndEmotion,
        EmojiGroup::PeopleAndBody,
        EmojiGroup::AnimalsAndNature,
        EmojiGroup::FoodAndDrink,
        EmojiGroup::TravelAndPlaces,
        EmojiGroup::Activities,
        EmojiGroup::Objects,
        EmojiGroup::Symbols,
        EmojiGroup::Flags,
    ];
    let all: Vec<String> = groups.iter().flat_map(|g| emoji_picker_grid("", Some(*g)).emojis).collect();
    for query in ["cat", "flag", "e"] {
        let found = emoji_picker_grid(query, None).emojis;
        assert!(!found.is_empty());
        let mut last = None;
        for glyph in &found {
            let at = all.iter().position(|g| g == glyph).unwrap();
            assert!(last.map_or(true, |l| l < at));
            last = Some(at);
        }
    }
}
