use fargin::facts::{fact_types_for, search_facts, sort_newest_first, Fact, FactMetadata, FactType};
use fargin::time::Timestamp;

fn meta(tags: &[&str], description: Option<&str>) -> FactMetadata {
    FactMetadata {
        tags: tags.iter().map(|t| t.to_string()).collect(),
        description: description.map(|d| d.to_string()),
        version: None,
        references: Vec::new(),
    }
}

fn fact(id: &str, content: &str, m: FactMetadata, secs: i64) -> Fact {
    let t = Timestamp::from_parts(secs, 0).unwrap();
    Fact {
        id: id.to_string(),
        fact_type: FactType::Prompt,
        content: content.to_string(),
        metadata: m,
        created_at: t,
        updated_at: t,
    }
}

#[test]
fn search_finds_only_the_matching_fact() {
    let facts = vec![
        fact("1", "Implement auth flow", meta(&[], None), 10),
        fact("2", "Unrelated notes about colors", meta(&[], None), 20),
    ];
    let found = search_facts("auth", facts);
    assert_eq!(found.len(), 1);
    assert_eq!(found[0].id, "1");
}

#[test]
fn search_ignores_case_and_looks_at_description_and_tags() {
    let facts = vec![
        fact("1", "nothing", meta(&["Security"], None), 10),
        fact("2", "nothing", meta(&[], Some("About AUTH tokens")), 30),
        fact("3", "nothing", meta(&["misc"], Some("other")), 20),
    ];
    let found: Vec<String> = search_facts("Auth", facts).into_iter().map(|f| f.id).collect();
    assert_eq!(found, vec!["2"]);
    let facts = vec![
        fact("1", "nothing", meta(&["Security"], None), 10),
        fact("3", "nothing", meta(&["misc"], None), 20),
    ];
    let found: Vec<String> = search_facts("SECUR", facts).into_iter().map(|f| f.id).collect();
    assert_eq!(found, vec!["1"]);
}

#[test]
fn facts_sorted_newest_first() {
    let facts = vec![
        fact("a", "", meta(&[], None), 5),
        fact("b", "", meta(&[], None), 50),
        fact("c", "", meta(&[], None), 20),
    ];
    let ids: Vec<String> = sort_newest_first(facts).into_iter().map(|f| f.id).collect();
    assert_eq!(ids, vec!["b", "c", "a"]);
}

#[test]
fn fact_scope_and_directories() {
    assert_eq!(fact_types_for(None), vec![FactType::Prompt, FactType::History, FactType::Template]);
    assert_eq!(fact_types_for(Some(FactType::History)), vec![FactType::History]);
    assert_eq!(FactType::Template.dir_name(), "templates");
    assert_eq!(FactType::Prompt.dir_name(), "prompts");
}

#[test]
fn new_fact_and_update() {
    let mut f = Fact::new(FactType::History, "first".to_string(), meta(&["x"], None));
    assert_eq!(f.id.len(), 36);
    assert_eq!(f.created_at, f.updated_at);
    let t = Timestamp::from_parts(f.created_at.secs + 5, 0).unwrap();
    f.update_at("second".to_string(), None, t);
    assert_eq!(f.content, "second");
    assert_eq!(f.metadata.tags, vec!["x"]);
    assert_eq!(f.updated_at, t);
    assert!(f.matches("SECOND"));
    assert!(!f.matches("third"));
}
