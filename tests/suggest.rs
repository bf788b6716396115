use fargin::config::{ProgressMarker, ProjectConfig};
use fargin::facts::{Fact, FactMetadata, FactType};
use fargin::progress::ProgressReport;
use fargin::suggest::{
    generate_suggestions, serialize_suggestions_markdown, Suggestion, SuggestionCategory,
    SuggestionPriority,
};
use fargin::suggestions;
use fargin::time::Timestamp;
use fargin::validation::{ValidationCheck, ValidationReport, ValidationStatus};

fn stamp() -> Timestamp {
    Timestamp::from_parts(1_000, 0).unwrap()
}

fn marker(done: bool) -> ProgressMarker {
    ProgressMarker {
        name: "m".to_string(),
        description: "d".to_string(),
        completed: done,
        completed_at: None,
    }
}

fn progress(done: usize, total: usize) -> ProgressReport {
    let mut config = ProjectConfig::new_at("p".to_string(), "d".to_string(), stamp());
    for i in 0..total {
        config.progress_markers.push(marker(i < done));
    }
    ProgressReport::from_config(config)
}

fn prompt() -> Fact {
    Fact {
        id: "f".to_string(),
        fact_type: FactType::Prompt,
        content: "c".to_string(),
        metadata: FactMetadata { tags: vec![], description: None, version: None, references: vec![] },
        created_at: stamp(),
        updated_at: stamp(),
    }
}

fn report(checks: Vec<(&str, ValidationStatus, Option<&str>)>) -> ValidationReport {
    let mut r = ValidationReport::new();
    for (name, status, message) in checks {
        r.add_check(ValidationCheck {
            name: name.to_string(),
            status,
            message: message.map(|m| m.to_string()),
        });
    }
    r
}

#[test]
fn progress_report_counts_completed_markers() {
    let p = progress(1, 3);
    assert_eq!(p.total_markers, 3);
    assert_eq!(p.completed_markers, 1);
    assert_eq!(p.project_name, "p");
}

#[test]
fn all_suggestions_most_urgent_first() {
    let v = report(vec![
        ("Configuration", ValidationStatus::Warning, Some("Project description is empty")),
        ("Directory Structure", ValidationStatus::Error, Some("Missing required directory: .fargin")),
    ]);
    let p = progress(0, 2);
    let s = generate_suggestions(&v, &p, &[], &[], "all", "normal");
    let titles: Vec<&str> = s.iter().map(|x| x.title.as_str()).collect();
    assert_eq!(
        titles,
        vec![
            "Critical Technical Issue: Directory Structure",
            "Low Progress Detected",
            "No Project Prompts Documented",
            "No Progress Markers Completed",
            "Technical Configuration Warning: Configuration",
            "No Project Templates Documented",
        ]
    );
    assert_eq!(s[0].priority, SuggestionPriority::Critical);
    assert_eq!(s[0].description, "Missing required directory: .fargin");
    assert_eq!(s[4].category, SuggestionCategory::Technical);
}

#[test]
fn brief_keeps_high_and_critical_only() {
    let v = report(vec![("Configuration", ValidationStatus::Warning, Some("w"))]);
    let p = progress(1, 2);
    let s = generate_suggestions(&v, &p, &[prompt()], &[], "all", "brief");
    assert!(s.is_empty());
    let s = generate_suggestions(&v, &p, &[], &[], "documentation", "brief");
    assert_eq!(s.len(), 1);
    assert_eq!(s[0].title, "No Project Prompts Documented");
}

#[test]
fn documentation_suggestions_by_count() {
    let v = ValidationReport::new();
    let p = progress(0, 0);
    let prompts = vec![prompt(), prompt()];
    let s = generate_suggestions(&v, &p, &prompts, &[prompt()], "documentation", "normal");
    assert_eq!(s.len(), 1);
    assert_eq!(s[0].title, "Limited Prompt Documentation");
    assert_eq!(s[0].priority, SuggestionPriority::Medium);
    let five = vec![prompt(), prompt(), prompt(), prompt(), prompt()];
    assert!(generate_suggestions(&v, &p, &five, &[prompt()], "documentation", "normal").is_empty());
}

#[test]
fn refactoring_collects_code_quality_messages() {
    let v = report(vec![
        ("code lint", ValidationStatus::Warning, Some("unused import")),
        ("Configuration", ValidationStatus::Pass, None),
        ("style", ValidationStatus::Pass, None),
    ]);
    let p = progress(0, 0);
    let s = generate_suggestions(&v, &p, &[], &[], "refactoring", "normal");
    assert_eq!(s.len(), 1);
    assert_eq!(s[0].category, SuggestionCategory::Refactoring);
    assert_eq!(s[0].recommended_actions, vec!["unused import", ""]);
    assert!(generate_suggestions(&v, &p, &[], &[], "nothing", "normal").is_empty());
}

#[test]
fn suggestions_markdown() {
    let s = vec![Suggestion {
        category: SuggestionCategory::Testing,
        priority: SuggestionPriority::High,
        title: "T".to_string(),
        description: "D".to_string(),
        recommended_actions: vec!["a".to_string(), "b".to_string()],
    }];
    assert_eq!(
        serialize_suggestions_markdown(&s),
        "## Suggestion 1: T\n\n**Category:** Testing\n\n**Priority:** High\n\n**Description:** D\n\n**Recommended Actions:**\n- a\n- b\n\n---\n\n"
    );
}

#[test]
fn next_steps_from_configuration() {
    let mut config = ProjectConfig::new_at("p".to_string(), "d".to_string(), stamp());
    config.progress_markers = vec![marker(true), marker(false), marker(false)];
    let steps = suggestions::generate_suggestions(&config);
    assert_eq!(steps.len(), 2);
    assert_eq!(steps[0].description, "Complete 2 remaining progress markers");
    assert_eq!(steps[1].description, "Define project goals");
    assert_eq!(
        suggestions::render_suggestions(&steps),
        "\nSuggested Next Steps:\n1. [High] Complete 2 remaining progress markers\n   Focus on completing existing progress markers before adding new ones\n2. [High] Define project goals\n   Add clear, measurable goals to guide project development\n"
    );
    config.progress_markers = vec![marker(true)];
    config.goals = vec!["g".to_string()];
    let none = suggestions::generate_suggestions(&config);
    assert!(none.is_empty());
    assert_eq!(
        suggestions::render_suggestions(&none),
        "No suggestions at this time. Project is progressing well!\n"
    );
}
