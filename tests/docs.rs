use fargin::config::{ProgressMarker, ProjectConfig};
use fargin::docs::generate_llm_documentation;
use fargin::facts::{Fact, FactMetadata, FactType};
use fargin::howto::{HowtoError, HowtoGenerator, HowtoOutputFormat};
use fargin::time::Timestamp;

fn fact(id: &str, content: &str, tags: &[&str], kind: FactType) -> Fact {
    let t = Timestamp::from_parts(7, 0).unwrap();
    Fact {
        id: id.to_string(),
        fact_type: kind,
        content: content.to_string(),
        metadata: FactMetadata {
            tags: tags.iter().map(|x| x.to_string()).collect(),
            description: Some("desc".to_string()),
            version: Some("1".to_string()),
            references: vec!["ref".to_string()],
        },
        created_at: t,
        updated_at: t,
    }
}

#[test]
fn llm_documentation_gathers_facts() {
    let mut config = ProjectConfig::new_at("P".to_string(), "D".to_string(), Timestamp::from_parts(1, 0).unwrap());
    config.goals = vec!["ship".to_string()];
    config.progress_markers = vec![ProgressMarker {
        name: "Setup".to_string(),
        description: "done".to_string(),
        completed: true,
        completed_at: None,
    }];
    let prompts = vec![
        fact("p1", "ask", &["a", "b"], FactType::Prompt),
        fact("p2", "ask more", &["b", "c"], FactType::Prompt),
    ];
    let templates = vec![fact("t1", "tmpl", &["x"], FactType::Template)];
    let history = vec![
        fact("h1", "it worked", &["success"], FactType::History),
        fact("h2", "learned", &["lesson", "pattern"], FactType::History),
    ];
    let doc = generate_llm_documentation(&config, &prompts, &templates, &history);
    assert_eq!(doc.project_info.progress_markers, vec!["Setup: done"]);
    assert_eq!(doc.project_info.goals, vec!["ship"]);
    assert_eq!(doc.prompts_guide.available_prompts.len(), 2);
    assert_eq!(doc.prompts_guide.available_prompts[1].example_usage, "ask more");
    assert_eq!(doc.prompts_guide.prompt_categories, vec!["a", "b", "c"]);
    assert_eq!(doc.templates_guide.available_templates[0].typical_use_cases, vec!["ref"]);
    assert_eq!(doc.interaction_history.successful_approaches, vec!["it worked"]);
    assert_eq!(doc.interaction_history.common_patterns, vec!["learned"]);
    assert_eq!(doc.interaction_history.lessons_learned, vec!["learned"]);
    assert_eq!(doc.best_practices.len(), 10);
    let empty = generate_llm_documentation(&config, &[], &[], &[]);
    assert_eq!(empty.best_practices.len(), 4);
    assert_eq!(empty.interaction_history.common_patterns[0], "Start with clear project goals");
}

#[test]
fn howto_topics_and_formats() {
    assert_eq!(HowtoGenerator::list_topics().len(), 6);
    let g = HowtoGenerator::new(Some("check".to_string()), "low".to_string(), HowtoOutputFormat::Terminal, None);
    assert_eq!(
        g.generate().unwrap(),
        "# Check Documentation\n\nBasic overview of project check.\n\n## Supported Check\n- Code Formatting\n- Linting\n- Unit Testing\n\n## Usage Example\n```bash\nfargin check\n```\n"
    );
    let g = HowtoGenerator::new(Some("logging".to_string()), "normal".to_string(), HowtoOutputFormat::Html, None);
    let html = g.generate().unwrap();
    assert!(html.starts_with("<html><body><pre># Logging and Observability"));
    assert!(html.ends_with("</pre></body></html>"));
    let g = HowtoGenerator::new(None, "normal".to_string(), HowtoOutputFormat::Markdown, None);
    assert_eq!(
        g.generate().unwrap(),
        "# Fargin CLI Documentation\n\nComprehensive guide to using the Fargin CLI tool.\n\n## Available Topics\ncheck\nfeature-status\ndependency-management\ngit-health\nlogging\ncli-usage\nUse `fargin howto <topic>` for detailed information.\n"
    );
    let g = HowtoGenerator::new(Some("nope".to_string()), "normal".to_string(), HowtoOutputFormat::Terminal, None);
    assert_eq!(g.generate(), Err(HowtoError::UnknownTopic));
}
