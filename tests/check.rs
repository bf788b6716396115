use fargin::check::{
    CheckStage, CheckStep, FeatureFileInfo, ProjectChecker, ProjectScan, StatusDistribution,
};
use fargin::features::FeatureStatus;

fn empty_scan() -> ProjectScan {
    ProjectScan { existing_paths: Vec::new(), feature_files: Vec::new() }
}

fn file(name: &str, content: &str, age_secs: Option<u64>) -> FeatureFileInfo {
    FeatureFileInfo {
        file_name: name.to_string(),
        content: content.to_string(),
        age_secs,
    }
}

#[test]
fn test_project_checker_initialization() {
    let checker = ProjectChecker::new("/tmp/some-project");
    assert_eq!(checker.project_root(), "/tmp/some-project");
}

#[test]
fn test_run_all_checks_on_empty_project() {
    let checker = ProjectChecker::new("/tmp/empty");
    let report = checker.run_all_checks(&empty_scan());
    assert_eq!(report.feature_health.total_features, 0);
    assert!(report
        .file_structure
        .missing_dirs
        .contains(&".fargin".to_string()));
}

#[test]
fn feature_health_with_no_feature_files_is_empty() {
    let checker = ProjectChecker::new("p");
    let health = checker.check_feature_health(&Vec::new());
    assert_eq!(health.total_features, 0);
    assert!(health.status_distribution.is_empty());
    assert!(health.stale_features.is_empty());
}

#[test]
fn feature_health_tallies_markers_and_stale_files() {
    let checker = ProjectChecker::new("p");
    let files = vec![
        file("a.md", "Status: Implemented", Some(31 * 86400)),
        file("b.md", "Status: InProgress and Status: Blocked", Some(30 * 86400 + 86399)),
        file("c.md", "**Status**: Implemented", None),
        file("d.md", "Status: Blocked", Some(40 * 86400)),
    ];
    let health = checker.check_feature_health(&files);
    assert_eq!(health.total_features, 4);
    assert_eq!(health.status_distribution.get(FeatureStatus::Implemented), 1);
    assert_eq!(health.status_distribution.get(FeatureStatus::InProgress), 1);
    assert_eq!(health.status_distribution.get(FeatureStatus::Blocked), 1);
    assert_eq!(health.status_distribution.get(FeatureStatus::Proposed), 1);
    assert_eq!(health.stale_features, vec!["a.md", "d.md"]);
}

#[test]
fn file_structure_partitions_in_order() {
    let checker = ProjectChecker::new("p");
    let scan = ProjectScan {
        existing_paths: vec!["src".to_string(), ".fargin".to_string()],
        feature_files: Vec::new(),
    };
    let fs = checker.check_file_structure(&scan);
    assert_eq!(fs.existing_dirs, vec![".fargin", "src"]);
    assert_eq!(
        fs.missing_dirs,
        vec![".fargin/features", ".fargin/docs", ".fargin/templates", ".fargin/artifacts", "tests", "docs"]
    );
}

#[test]
fn git_and_dependency_facets() {
    let checker = ProjectChecker::new("p");
    let scan = ProjectScan {
        existing_paths: vec![".git".to_string(), "Cargo.toml".to_string()],
        feature_files: Vec::new(),
    };
    let git = checker.check_git_status(&scan);
    assert!(git.is_git_repo);
    assert_eq!(git.branch_name.as_deref(), Some("main"));
    let none = checker.check_git_status(&empty_scan());
    assert!(!none.is_git_repo);
    assert!(none.branch_name.is_none());
    let deps = checker.check_dependencies(&scan);
    assert_eq!(deps.total_dependencies, 0);
    assert!(deps.outdated_dependencies.is_empty());
}

#[test]
fn brief_summary_text() {
    let checker = ProjectChecker::new("p");
    let scan = ProjectScan {
        existing_paths: vec![".git".to_string()],
        feature_files: vec![file("a.md", "Status: Implemented", None), file("b.md", "", None)],
    };
    let text = checker.generate_progress_summary(&scan, "low");
    assert_eq!(
        text,
        "Project Progress Summary:\n- Features: 2 total (1 implemented)\n- Dependencies: 0 total\n- Git Status: ✅ Healthy\n"
    );
}

#[test]
fn standard_summary_text() {
    let checker = ProjectChecker::new("p");
    let scan = ProjectScan {
        existing_paths: Vec::new(),
        feature_files: vec![file("a.md", "Status: Blocked", Some(100 * 86400))],
    };
    let text = checker.generate_progress_summary(&scan, "normal");
    assert_eq!(
        text,
        "🚀 Project Progress Summary 🚀\n\nFeature Health:\nTotal Features: 1\nFeature Status Distribution:\n  - Blocked: 1\nStale Features: a.md\n\nDependency Health:\nTotal Dependencies: 0\nOutdated Dependencies: 0\n\nGit Repository Health:\nIs Git Repository: false\nCurrent Branch: Unknown\nUncommitted Changes: false\nUnpushed Commits: false\n"
    );
}

#[test]
fn detailed_summary_mentions_stale_features() {
    let checker = ProjectChecker::new("p");
    let scan = ProjectScan {
        existing_paths: Vec::new(),
        feature_files: vec![file("old.md", "", Some(90 * 86400))],
    };
    let text = checker.generate_progress_summary(&scan, "high");
    assert!(text.starts_with("🌟 Comprehensive Project Progress Summary 🌟\n\n🔍 Feature Health:\nTotal Features: 1\nFeature Status Distribution:\n  - Proposed: 1\nStale Features (>30 days):\n  - old.md\n\nPotential Actions:\n- Review and update stale features\n"));
    assert!(text.ends_with("3. Maintain consistent Git workflow\n"));
}

#[test]
fn health_report_text() {
    let checker = ProjectChecker::new("p");
    let scan = ProjectScan {
        existing_paths: vec![".fargin".to_string(), ".fargin/features".to_string(), ".fargin/docs".to_string(), ".fargin/templates".to_string(), ".fargin/artifacts".to_string(), "src".to_string(), "tests".to_string(), "docs".to_string()],
        feature_files: Vec::new(),
    };
    let report = checker.run_all_checks(&scan).generate_report();
    assert_eq!(
        report,
        "🔍 Feature Health:\n   Total Features: 0\n   Status Distribution:\n\n📂 Project Structure:\n   Existing Directories:\n     - .fargin\n     - .fargin/features\n     - .fargin/docs\n     - .fargin/templates\n     - .fargin/artifacts\n     - src\n     - tests\n     - docs\n\n📦 Dependency Health:\n   Total Dependencies: 0\n\n🌿 Git Repository Health:\n   Is Git Repository: false\n   Current Branch: Unknown\n   Uncommitted Changes: false\n   Unpushed Commits: false\n"
    );
}

#[test]
fn check_run_stops_at_first_failure() {
    let checker = ProjectChecker::new("p");
    assert_eq!(checker.first_check_step(), CheckStep::Run(CheckStage::Formatting));
    assert_eq!(
        checker.next_check_step(CheckStage::Formatting, true),
        CheckStep::Run(CheckStage::Linting)
    );
    assert_eq!(
        checker.next_check_step(CheckStage::Linting, false),
        CheckStep::Failed(CheckStage::Linting)
    );
    assert_eq!(checker.next_check_step(CheckStage::Tests, true), CheckStep::Passed);
    assert_eq!(CheckStage::Linting.arguments(), vec!["clippy", "--", "-D", "warnings"]);
    assert_eq!(CheckStage::Tests.title(), "Cargo Test Suite");
}

#[test]
fn distribution_accessors() {
    let d = StatusDistribution { proposed: 2, ..Default::default() };
    assert!(!d.is_empty());
    assert_eq!(d.get(FeatureStatus::Proposed), 2);
    assert_eq!(d.get(FeatureStatus::Deprecated), 0);
}

#[test]
fn probed_paths_and_loop_cap() {
    let paths = fargin::check::paths_to_probe();
    assert_eq!(paths.len(), 12);
    assert!(paths.contains(&".git".to_string()));
    assert!(paths.contains(&".fargin/prompts".to_string()));
    assert!(paths.contains(&"Cargo.toml".to_string()));
    assert!(fargin::check::loop_continues(100, 0));
    assert!(fargin::check::loop_continues(2, 3));
    assert!(!fargin::check::loop_continues(3, 3));
}

#[test]
fn reports_have_empty_defaults() {
    let r = fargin::check::ProjectHealthReport::default();
    assert_eq!(r.feature_health.total_features, 0);
    assert!(r.feature_health.status_distribution.is_empty());
    assert!(!r.git_health.is_git_repo);
    assert!(r.file_structure.missing_dirs.is_empty());
}
