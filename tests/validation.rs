use fargin::check::ProjectScan;
use fargin::config::ProjectConfig;
use fargin::time::Timestamp;
use fargin::validation::{
    validate_configuration, validate_directory_structure, validate_project, ValidationCheck,
    ValidationReport, ValidationStatus,
};

fn scan_of(paths: &[&str]) -> ProjectScan {
    ProjectScan {
        existing_paths: paths.iter().map(|p| p.to_string()).collect(),
        feature_files: Vec::new(),
    }
}

fn full_scan() -> ProjectScan {
    scan_of(&[".fargin", ".fargin/prompts", ".fargin/history", ".fargin/templates"])
}

fn config(name: &str, description: &str) -> ProjectConfig {
    ProjectConfig::new_at(
        name.to_string(),
        description.to_string(),
        Timestamp::from_parts(1_700_000_000, 0).unwrap(),
    )
}

#[test]
fn test_directory_structure_validation() {
    let check = validate_directory_structure(&full_scan());
    assert!(matches!(check.status, ValidationStatus::Pass));

    let scan = scan_of(&[".fargin", ".fargin/history", ".fargin/templates"]);
    let check = validate_directory_structure(&scan);
    assert!(matches!(check.status, ValidationStatus::Error));
    assert!(check.message.unwrap().contains("prompts"));
}

#[test]
fn test_configuration_validation() {
    let check = validate_configuration(&config("test-project", "A test project"));
    assert!(matches!(check.status, ValidationStatus::Pass));

    let check = validate_configuration(&config("", "A test project"));
    assert!(matches!(check.status, ValidationStatus::Error));
    assert!(check.message.unwrap().contains("name"));

    let check = validate_configuration(&config("test-project", ""));
    assert!(matches!(check.status, ValidationStatus::Warning));
    assert!(check.message.unwrap().contains("description"));
}

#[test]
fn test_validation_report() {
    let mut report = ValidationReport::new();
    assert!(!report.has_errors());

    report.add_check(ValidationCheck {
        name: "Test Check 1".to_string(),
        status: ValidationStatus::Pass,
        message: None,
    });
    assert!(!report.has_errors());

    report.add_check(ValidationCheck {
        name: "Test Check 2".to_string(),
        status: ValidationStatus::Warning,
        message: Some("Warning message".to_string()),
    });
    assert!(!report.has_errors());

    report.add_check(ValidationCheck {
        name: "Test Check 3".to_string(),
        status: ValidationStatus::Error,
        message: Some("Error message".to_string()),
    });
    assert!(report.has_errors());
}

#[test]
fn test_full_project_validation() {
    let report = validate_project(&full_scan(), &config("test-project", "A test project"));
    assert!(!report.has_errors());
    assert_eq!(report.checks.len(), 2);

    let report = validate_project(&full_scan(), &config("", ""));
    assert!(report.has_errors());
}

#[test]
fn missing_templates_directory_is_an_error_naming_it() {
    let scan = scan_of(&[".fargin", ".fargin/prompts", ".fargin/history"]);
    let report = validate_project(&scan, &config("p", "d"));
    assert!(report.has_errors());
    let message = report.checks[0].message.clone().unwrap();
    assert_eq!(message, "Missing required directory: .fargin/templates");
    assert!(message.contains("templates"));
}

#[test]
fn demo_project_with_empty_description_warns() {
    let demo = ProjectConfig::new("Demo".to_string(), String::new());
    let check = validate_configuration(&demo);
    assert_eq!(check.status, ValidationStatus::Warning);
    assert!(check.message.unwrap().contains("description"));
    assert_eq!(check.name, "Configuration");
}

#[test]
fn default_report_is_empty() {
    let report = ValidationReport::default();
    assert!(report.checks.is_empty());
    assert!(!report.has_errors());
}

#[test]
fn empty_project_fails_on_first_missing_directory() {
    let report = validate_project(&scan_of(&[]), &config("p", "d"));
    assert!(report.has_errors());
    assert_eq!(
        report.checks[0].message.as_deref(),
        Some("Missing required directory: .fargin")
    );
    assert!(matches!(report.checks[1].status, ValidationStatus::Pass));
}
