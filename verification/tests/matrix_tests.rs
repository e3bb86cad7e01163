use constellations::matrix::{check_sliding_sync, normalize_homeserver_url, status_for_error, SyncError, SyncStatus};
use constellations::space::SpaceHierarchy;

#[test]
fn test_sync_status_equality() {
    assert_eq!(SyncStatus::Disconnected, SyncStatus::Disconnected);
    assert_eq!(SyncStatus::Syncing, SyncStatus::Syncing);
    assert_eq!(SyncStatus::Connected, SyncStatus::Connected);
    assert_eq!(
        SyncStatus::Error("error".to_string()),
        SyncStatus::Error("error".to_string())
    );
    assert_ne!(
        SyncStatus::Error("error 1".to_string()),
        SyncStatus::Error("error 2".to_string())
    );
    assert_ne!(SyncStatus::Connected, SyncStatus::Syncing);
    assert_eq!(
        SyncStatus::MissingSlidingSyncSupport,
        SyncStatus::MissingSlidingSyncSupport
    );
    assert_ne!(SyncStatus::MissingSlidingSyncSupport, SyncStatus::Connected);
}

#[test]
fn test_sync_error_display() {
    let err = SyncError::MissingSlidingSyncSupport;
    assert_eq!(
        err.to_string(),
        "Sliding Sync (MSC4186) is not supported by the homeserver"
    );
}

#[test]
fn test_sync_error_to_status_mapping() {
    let err = SyncError::MissingSlidingSyncSupport;
    let status = match err {
        SyncError::MissingSlidingSyncSupport => SyncStatus::MissingSlidingSyncSupport,
        _ => SyncStatus::Error(err.to_string()),
    };
    assert_eq!(status, SyncStatus::MissingSlidingSyncSupport);

    let err = SyncError::Matrix("some error".to_string());
    let status = match err {
        SyncError::MissingSlidingSyncSupport => SyncStatus::MissingSlidingSyncSupport,
        _ => SyncStatus::Error(err.to_string()),
    };
    assert_eq!(
        status,
        SyncStatus::Error("Matrix error: some error".to_string())
    );
}

#[test]
fn status_for_error_matches_mapping() {
    assert_eq!(status_for_error(&SyncError::MissingSlidingSyncSupport), SyncStatus::MissingSlidingSyncSupport);
    assert_eq!(status_for_error(&SyncError::Http("x".to_string())), SyncStatus::Error("HTTP error: x".to_string()));
    assert_eq!(status_for_error(&SyncError::Anyhow("y".to_string())), SyncStatus::Error("Error: y".to_string()));
    assert_eq!(status_for_error(&SyncError::Generic("z".to_string())), SyncStatus::Error("Error: z".to_string()));
}

#[test]
fn homeserver_gets_https_scheme() {
    assert_eq!(normalize_homeserver_url("matrix.org"), "https://matrix.org");
    assert_eq!(normalize_homeserver_url("https://matrix.org"), "https://matrix.org");
    assert_eq!(normalize_homeserver_url("http://localhost:8008"), "http://localhost:8008");
}

fn hierarchy_with(links: &[(&str, &str)]) -> SpaceHierarchy {
    let mut h = SpaceHierarchy::new();
    for (s, c) in links {
        h.add_child(s.to_string(), c.to_string(), None, false);
    }
    h
}

#[test]
fn test_space_hierarchy_basic() {
    let hierarchy = hierarchy_with(&[("!space:example.com", "!room:example.com")]);
    assert!(hierarchy.is_in_space("!room:example.com", "!space:example.com"));
    assert!(!hierarchy.is_in_space("!space:example.com", "!room:example.com"));
}

#[test]
fn test_space_hierarchy_nested() {
    let hierarchy = hierarchy_with(&[
        ("!top:example.com", "!sub:example.com"),
        ("!sub:example.com", "!room:example.com"),
    ]);
    assert!(hierarchy.is_in_space("!room:example.com", "!sub:example.com"));
    assert!(hierarchy.is_in_space("!room:example.com", "!top:example.com"));
    assert!(hierarchy.is_in_space("!sub:example.com", "!top:example.com"));
    assert!(!hierarchy.is_in_space("!top:example.com", "!sub:example.com"));
}

#[test]
fn test_space_hierarchy_circular() {
    let mut hierarchy = hierarchy_with(&[
        ("!a:example.com", "!b:example.com"),
        ("!b:example.com", "!a:example.com"),
    ]);
    assert!(hierarchy.is_in_space("!a:example.com", "!b:example.com"));
    assert!(hierarchy.is_in_space("!b:example.com", "!a:example.com"));
    hierarchy.add_child("!a:example.com".to_string(), "!room:example.com".to_string(), None, false);
    assert!(hierarchy.is_in_space("!room:example.com", "!a:example.com"));
    assert!(hierarchy.is_in_space("!room:example.com", "!b:example.com"));
}

#[test]
fn test_space_hierarchy_multiple_parents() {
    let hierarchy = hierarchy_with(&[
        ("!space1:example.com", "!room:example.com"),
        ("!space2:example.com", "!room:example.com"),
    ]);
    assert!(hierarchy.is_in_space("!room:example.com", "!space1:example.com"));
    assert!(hierarchy.is_in_space("!room:example.com", "!space2:example.com"));
}

#[test]
fn test_is_in_space_edge_cases() {
    let hierarchy = SpaceHierarchy::new();
    assert!(hierarchy.is_in_space("!space:example.com", "!space:example.com"));
}

#[test]
fn descendants_include_the_space_and_everything_below() {
    let hierarchy = hierarchy_with(&[("!t", "!s"), ("!s", "!r"), ("!x", "!y")]);
    let mut d = hierarchy.get_descendants_strs("!t");
    d.sort();
    assert_eq!(d, vec!["!r".to_string(), "!s".to_string(), "!t".to_string()]);
}

#[test]
fn in_space_iff_descendant() {
    let hierarchy = hierarchy_with(&[("!t", "!s"), ("!s", "!r"), ("!x", "!y")]);
    let d = hierarchy.get_descendants_strs("!t");
    for id in ["!t", "!s", "!r", "!x", "!y"] {
        assert_eq!(hierarchy.is_in_space(id, "!t"), d.contains(&id.to_string()));
    }
}

#[test]
fn removed_child_is_no_longer_in_space() {
    let mut hierarchy = hierarchy_with(&[("!s", "!r")]);
    assert!(hierarchy.is_in_space("!r", "!s"));
    hierarchy.remove_child("!s", "!r");
    assert!(!hierarchy.is_in_space("!r", "!s"));
    assert!(hierarchy.is_known_space("!s"));
}

#[test]
fn relationship_keeps_existing_entry() {
    let mut hierarchy = SpaceHierarchy::new();
    hierarchy.add_child("!s".to_string(), "!r".to_string(), Some("a".to_string()), true);
    hierarchy.add_relationship("!s".to_string(), "!r".to_string());
    let (p, d) = hierarchy.first_parent("!r").unwrap();
    assert_eq!(p, "!s");
    assert_eq!(d.order, Some("a".to_string()));
    assert!(d.suggested);
    assert!(hierarchy.first_parent("!s").is_none());
}

#[test]
fn sliding_sync_needs_the_feature_or_version() {
    let none: Vec<String> = Vec::new();
    assert!(check_sliding_sync(&vec!["org.matrix.msc4186".to_string()], &none).is_ok());
    assert!(check_sliding_sync(&none, &vec!["v1.10".to_string(), "v1.11".to_string()]).is_ok());
    assert!(matches!(
        check_sliding_sync(&vec!["org.matrix.msc3575".to_string()], &vec!["v1.10".to_string()]),
        Err(SyncError::MissingSlidingSyncSupport)
    ));
}
