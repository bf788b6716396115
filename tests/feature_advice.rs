use fargin::feature_suggestions::{SuggestionImpact, SuggestionType};
use fargin::features::{FeatureManager, Priority};
use fargin::time::Timestamp;

#[test]
fn feature_suggestions_by_kind_and_verbosity() {
    let mut m = FeatureManager::empty("p");
    let id = m
        .add_feature_at("Login".to_string(), None, None, Some(Priority::High), None, Timestamp::from_parts(0, 0).unwrap())
        .unwrap();
    let f = m.get_feature(&id).unwrap();
    let all = m.generate_feature_suggestions(f, None, "normal");
    assert_eq!(all.len(), 3);
    assert_eq!(all[0].id, format!("{}-impl-1", id));
    assert_eq!(all[0].content, "Recommended implementation approach for feature: Login");
    assert_eq!(all[0].confidence_percent, 80);
    assert_eq!(all[1].impact, SuggestionImpact::Medium);
    let high = m.generate_feature_suggestions(f, None, "high");
    let kinds: Vec<SuggestionType> = high.iter().map(|s| s.suggestion_type).collect();
    assert_eq!(kinds, vec![SuggestionType::Implementation, SuggestionType::Documentation]);
    assert!(m.generate_feature_suggestions(f, None, "low").is_empty());
    assert!(m.generate_feature_suggestions(f, Some(SuggestionType::Security), "normal").is_empty());
    let testing = m.generate_feature_suggestions(f, Some(SuggestionType::Testing), "normal");
    assert_eq!(testing.len(), 1);
    assert_eq!(testing[0].next_steps, vec!["Define unit test cases", "Create integration test plan"]);
}
