use fargin::features::FeatureManager;

#[test]
fn it_works() {
    assert!(true);
}

#[test]
fn test_feature_management() {
    let manager = FeatureManager::empty(".");
    assert!(manager.list_features(None, None, None).is_empty());
}
