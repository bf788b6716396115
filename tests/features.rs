use fargin::features::{
    feature_id, feature_markdown_text, recovered_name, slug, Feature, FeatureError,
    FeatureManager, FeatureStatus, FeatureUpdateRequest, Priority, StoredFeature,
};
use fargin::time::Timestamp;

fn at(secs: i64) -> Timestamp {
    Timestamp::from_parts(secs, 0).unwrap()
}

#[test]
fn test_feature_creation() {
    let mut manager = FeatureManager::new("/tmp/project", Vec::new());

    let feature_id = manager
        .add_feature(
            "User Authentication".to_string(),
            Some("Implement secure user login".to_string()),
            Some(vec!["security".to_string()]),
            Some(Priority::High),
            Some("dev-team".to_string()),
        )
        .unwrap();

    let feature = manager
        .get_feature(&feature_id)
        .expect("Feature should exist");

    assert_eq!(feature.name, "User Authentication");
    assert_eq!(feature.status, FeatureStatus::Proposed);
    assert_eq!(feature.tags, vec!["security"]);
}

#[test]
fn test_feature_update() {
    let mut manager = FeatureManager::new("/tmp/project", Vec::new());

    let feature_id = manager
        .add_feature(
            "Payment Integration".to_string(),
            Some("Add payment gateway".to_string()),
            None,
            None,
            None,
        )
        .unwrap();

    manager
        .update_feature(
            &feature_id,
            FeatureUpdateRequest {
                status: Some(FeatureStatus::InProgress),
                priority: Some(Priority::Critical),
                ..Default::default()
            },
        )
        .unwrap();

    let updated_feature = manager
        .get_feature(&feature_id)
        .expect("Feature should exist");

    assert_eq!(updated_feature.status, FeatureStatus::InProgress);
    assert_eq!(updated_feature.priority, Priority::Critical);
}

#[test]
fn get_after_add_defaults_priority_to_medium() {
    let mut manager = FeatureManager::empty("p");
    let id = manager
        .add_feature_at("Search Box".to_string(), None, None, None, None, at(1_700_000_000))
        .unwrap();
    assert_eq!(id, "20231114_221320__search_box");
    let f = manager.get_feature(&id).unwrap();
    assert_eq!(f.name, "Search Box");
    assert_eq!(f.status, FeatureStatus::Proposed);
    assert_eq!(f.priority, Priority::Medium);
    assert!(f.tags.is_empty());
    assert_eq!(f.created_at, at(1_700_000_000));
}

#[test]
fn adding_same_name_in_same_second_is_refused() {
    let mut manager = FeatureManager::empty("p");
    manager
        .add_feature_at("Dup".to_string(), None, None, None, None, at(10))
        .unwrap();
    let second = manager.add_feature_at("Dup".to_string(), None, None, None, None, at(10));
    assert_eq!(second, Err(FeatureError::AlreadyExists));
}

#[test]
fn delete_missing_feature_succeeds() {
    let mut manager = FeatureManager::empty("p");
    let id = manager
        .add_feature_at("Keep".to_string(), None, None, None, None, at(5))
        .unwrap();
    assert_eq!(manager.delete_feature("no-such-id"), Ok(()));
    assert!(manager.get_feature(&id).is_some());
    assert_eq!(manager.delete_feature(&id), Ok(()));
    assert!(manager.get_feature(&id).is_none());
}

#[test]
fn status_only_update_keeps_other_fields() {
    let mut manager = FeatureManager::empty("p");
    let id = manager
        .add_feature_at(
            "Export".to_string(),
            None,
            Some(vec!["io".to_string()]),
            Some(Priority::Low),
            Some("ana".to_string()),
            at(100),
        )
        .unwrap();
    let update = FeatureUpdateRequest {
        status: Some(FeatureStatus::InProgress),
        ..Default::default()
    };
    manager.update_feature_at(&id, update, at(200)).unwrap();
    let f = manager.get_feature(&id).unwrap();
    assert_eq!(f.status, FeatureStatus::InProgress);
    assert_eq!(f.name, "Export");
    assert_eq!(f.tags, vec!["io"]);
    assert_eq!(f.priority, Priority::Low);
    assert_eq!(f.assigned_to.as_deref(), Some("ana"));
    assert_eq!(f.updated_at, at(200));
    assert_eq!(f.created_at, at(100));
}

#[test]
fn update_of_missing_feature_is_not_found() {
    let mut manager = FeatureManager::empty("p");
    let r = manager.update_feature_at("nope", FeatureUpdateRequest::default(), at(1));
    assert_eq!(r, Err(FeatureError::NotFound));
}

#[test]
fn list_features_filters_by_tag_status_priority() {
    let mut manager = FeatureManager::empty("p");
    let a = manager
        .add_feature_at("A".to_string(), None, Some(vec!["ui".to_string()]), Some(Priority::High), None, at(1))
        .unwrap();
    let b = manager
        .add_feature_at("B".to_string(), None, Some(vec!["UI".to_string()]), None, None, at(1))
        .unwrap();
    let c = manager
        .add_feature_at("C".to_string(), None, None, Some(Priority::High), None, at(1))
        .unwrap();
    let all: Vec<&str> = manager.list_features(None, None, None).iter().map(|f| f.id.as_str()).collect();
    assert_eq!(all.len(), 3);
    assert!(all.contains(&a.as_str()) && all.contains(&b.as_str()) && all.contains(&c.as_str()));
    let ui: Vec<&str> = manager.list_features(Some("ui"), None, None).iter().map(|f| f.id.as_str()).collect();
    assert_eq!(ui, vec![a.as_str()]);
    let high = manager.list_features(None, None, Some(Priority::High));
    assert_eq!(high.len(), 2);
    let high_ui = manager.list_features(Some("ui"), Some(FeatureStatus::Proposed), Some(Priority::High));
    assert_eq!(high_ui.len(), 1);
    assert!(manager.list_features(None, Some(FeatureStatus::Blocked), None).is_empty());
}

#[test]
fn priority_and_status_parse_in_any_case() {
    assert_eq!("HIGH".parse::<Priority>(), Ok(Priority::High));
    assert_eq!(Priority::parse("Critical"), Ok(Priority::Critical));
    assert_eq!(Priority::parse("urgent"), Err("Invalid priority: urgent".to_string()));
    assert_eq!(FeatureStatus::parse("InProgress"), Ok(FeatureStatus::InProgress));
    assert_eq!(
        FeatureStatus::parse("done"),
        Err("Invalid feature status: done".to_string())
    );
    assert_eq!(FeatureStatus::Blocked.name(), "Blocked");
    assert_eq!(Priority::Low.name(), "Low");
}

#[test]
fn slug_and_identifier() {
    assert_eq!(slug("user login\tflow!"), "user_login_flow");
    assert_eq!(feature_id("Big Feature", at(0)), "19700101_000000__big_feature");
}

#[test]
fn name_recovered_from_saved_markdown() {
    assert_eq!(recovered_name("intro\r\n# Feature: Login\r\nmore", "id1"), "Login");
    assert_eq!(recovered_name("no title here", "id1"), "id1");
    assert_eq!(recovered_name("", "id2"), "id2");
    let files = vec![
        StoredFeature { stem: "a".to_string(), content: "# Feature: Alpha\n".to_string() },
        StoredFeature { stem: "b".to_string(), content: "text".to_string() },
    ];
    let manager = FeatureManager::from_stored("p", files, at(3));
    assert_eq!(manager.get_feature("a").unwrap().name, "Alpha");
    assert_eq!(manager.get_feature("b").unwrap().name, "b");
    assert_eq!(manager.get_feature("a").unwrap().priority, Priority::Medium);
    assert_eq!(manager.list_features(None, None, None).len(), 2);
}

#[test]
fn markdown_of_feature() {
    let f = Feature {
        id: "x1".to_string(),
        name: "Login".to_string(),
        description: None,
        status: FeatureStatus::Blocked,
        tags: vec!["a".to_string(), "b".to_string()],
        priority: Priority::High,
        assigned_to: None,
        complexity: None,
        created_at: at(0),
        updated_at: at(60),
        related_features: vec![],
        acceptance_criteria: vec!["one".to_string(), "two".to_string()],
    };
    let md = feature_markdown_text(&f);
    assert_eq!(
        md,
        "# Feature: Login\n\n## Details\n- **ID**: x1\n- **Status**: Blocked\n- **Priority**: High\n- **Assigned To**: Unassigned\n- **Created At**: 1970-01-01T00:00:00+00:00\n- **Updated At**: 1970-01-01T00:01:00+00:00\n\n## Description\nNo description\n\n## Acceptance Criteria\none\n- two\n\n## Related Features\n\n\n## Tags\na, b"
    );
}

#[test]
fn loading_duplicate_stems_keeps_the_last() {
    let files = vec![
        StoredFeature { stem: "same".to_string(), content: "# Feature: First\n".to_string() },
        StoredFeature { stem: "same".to_string(), content: "# Feature: Second\n".to_string() },
    ];
    let manager = FeatureManager::from_stored("p", files, at(1));
    assert_eq!(manager.list_features(None, None, None).len(), 1);
    assert_eq!(manager.get_feature("same").unwrap().name, "Second");
}

#[test]
fn title_marker_removed_everywhere_on_its_line() {
    assert_eq!(recovered_name("# Feature: A # Feature: B", "x"), "A B");
    assert_eq!(recovered_name("  # Feature: indented\n# Feature: Real", "x"), "Real");
}
