use fargin::design::{design_document, design_file_name};
use fargin::reset::{is_yes, reset_confirmed, reset_directories, trim_text};
use fargin::scaffold::{
    cargo_generate_arguments, cargo_new_arguments, fargin_structure_files,
    managed_project_description, minimal_project_files, InitError,
};
use fargin::time::Timestamp;

#[test]
fn management_directory_files() {
    let files = fargin_structure_files("demo");
    let paths: Vec<&str> = files.iter().map(|f| f.path.as_str()).collect();
    assert_eq!(
        paths,
        vec![
            ".fargin/prompts/README.md",
            ".fargin/templates/README.md",
            ".fargin/history/README.md",
            ".fargin/artifacts/README.md",
            ".fargin/docs/README.md",
            ".fargin/README.md",
            ".fargin/.gitignore",
        ]
    );
    assert_eq!(
        files[0].content,
        "# PROMPTS\n\nThis directory is used for storing AI and human prompts related to the project."
    );
    assert!(files[5].content.starts_with("# Fargin Project Management for demo\n\n## Overview\n"));
    assert_eq!(managed_project_description(), "A project managed with Fargin CLI");
}

#[test]
fn minimal_skeletons() {
    let rust = minimal_project_files("app", "rust").unwrap();
    assert_eq!(rust.len(), 2);
    assert_eq!(rust[0].path, "Cargo.toml");
    assert_eq!(
        rust[0].content,
        "\n[package]\nname = \"app\"\nversion = \"0.1.0\"\nedition = \"2021\"\n\n[dependencies]\n"
    );
    let python = minimal_project_files("app", "python").unwrap();
    assert_eq!(python.len(), 3);
    assert_eq!(python[1].path, "src/__init__.py");
    assert_eq!(python[1].content, "");
    assert!(matches!(minimal_project_files("app", "js"), Err(InitError::UnsupportedProjectType)));
}

#[test]
fn generator_arguments() {
    assert_eq!(cargo_new_arguments("x", None), vec!["new", "x"]);
    assert_eq!(cargo_new_arguments("x", Some("t")), vec!["new", "x", "--template", "t"]);
    assert_eq!(
        cargo_generate_arguments("x", "https://example.com/t.git"),
        vec!["generate", "--name", "x", "--git", "https://example.com/t.git"]
    );
}

#[test]
fn reset_answers() {
    assert!(reset_confirmed("  YES \n"));
    assert!(reset_confirmed("y"));
    assert!(!reset_confirmed("no"));
    assert!(!reset_confirmed(""));
    assert!(!is_yes("Y"));
    assert_eq!(trim_text("\t a b \u{3000}"), "a b");
    assert_eq!(reset_directories(), vec![".fargin/prompts", ".fargin/history", ".fargin/templates"]);
}

#[test]
fn design_documents() {
    let t = Timestamp::from_parts(86_400, 0).unwrap();
    assert_eq!(design_file_name("Data Model", t), "19700102_000000__data_model.md");
    assert_eq!(
        design_document("Data Model", None, "Fri, 2 Jan 1970 00:00:00 +0000"),
        "# Design: Data Model\n\n## Description\nNo description provided\n\n## Created\nFri, 2 Jan 1970 00:00:00 +0000\n\n## Status\nDraft\n"
    );
}
