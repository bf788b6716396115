//! A guide to the project for language-model assistants, gathered from the
//! configuration and the recorded facts.

use vstd::prelude::*;
use crate::config::{ProgressMarker, ProjectConfig};
use crate::facts::Fact;
use crate::text::{copy_texts, list_has, views};

verus! {

/// The whole guide.
pub struct LLMDocumentation {
    pub project_info: ProjectInfo,
    pub prompts_guide: PromptsGuide,
    pub templates_guide: TemplatesGuide,
    pub interaction_history: InteractionHistory,
    pub best_practices: Vec<String>,
}

/// The project's identity and plan.
pub struct ProjectInfo {
    pub name: String,
    pub description: String,
    pub goals: Vec<String>,
    /// Each marker as `name: description`.
    pub progress_markers: Vec<String>,
}

/// The recorded prompts and how to use them.
pub struct PromptsGuide {
    pub available_prompts: Vec<PromptInfo>,
    pub prompt_categories: Vec<String>,
    pub recommended_usage: Vec<String>,
}

/// One recorded prompt.
pub struct PromptInfo {
    pub id: String,
    pub description: Option<String>,
    pub tags: Vec<String>,
    pub version: Option<String>,
    pub example_usage: String,
}

/// The recorded templates and how to use them.
pub struct TemplatesGuide {
    pub available_templates: Vec<TemplateInfo>,
    pub template_categories: Vec<String>,
    pub usage_patterns: Vec<String>,
}

/// One recorded template.
pub struct TemplateInfo {
    pub id: String,
    pub description: Option<String>,
    pub tags: Vec<String>,
    pub version: Option<String>,
    pub typical_use_cases: Vec<String>,
}

/// What the recorded history teaches.
pub struct InteractionHistory {
    pub common_patterns: Vec<String>,
    pub successful_approaches: Vec<String>,
    pub lessons_learned: Vec<String>,
}

/// Every tag of the first `i` facts, and the first `j` tags of fact `i`.
pub open spec fn tags_seen(facts: Seq<Fact>, i: int, j: int) -> Set<Seq<char>> {
    Set::new(
        |t: Seq<char>|
            exists|a: int, b: int|
                0 <= a <= i && a < facts.len() && 0 <= b < facts[a].metadata.tags@.len() && (a < i || b
                    < j) && (#[trigger] facts[a].metadata.tags@[b])@ == t,
    )
}

/// Every tag of every fact.
pub open spec fn all_tags(facts: Seq<Fact>) -> Set<Seq<char>> {
    Set::new(
        |t: Seq<char>|
            exists|a: int, b: int|
                0 <= a < facts.len() && 0 <= b < facts[a].metadata.tags@.len() && (#[trigger] facts[a].metadata.tags@[b])@
                    == t,
    )
}

/// The distinct tags of the facts, in order of first appearance.
pub fn categories(facts: &[Fact]) -> (r: Vec<String>)
    ensures
        views(r@).no_duplicates(),
        views(r@).to_set() == all_tags(facts@),
{
    let mut r: Vec<String> = Vec::new();
    let mut i: usize = 0;
    while i < facts.len()
        invariant
            i <= facts@.len(),
            views(r@).no_duplicates(),
            views(r@).to_set() == tags_seen(facts@, i as int, 0),
        decreases facts.len() - i,
    {
        let tags = &facts[i].metadata.tags;
        let mut j: usize = 0;
        assert(tags_seen(facts@, i as int, 0) =~= tags_seen(facts@, i as int, j as int));
        while j < tags.len()
            invariant
                i < facts@.len(),
                tags@ == facts@[i as int].metadata.tags@,
                j <= tags@.len(),
                views(r@).no_duplicates(),
                views(r@).to_set() == tags_seen(facts@, i as int, j as int),
            decreases tags.len() - j,
        {
            let t = &tags[j];
            let ghost before = views(r@);
            if !list_has(&r, t.as_str()) {
                r.push(t.clone());
                assert(views(r@) =~= before.push(t@));
            }
            assert(views(r@).contains(t@)) by {
                if views(r@) == before.push(t@) {
                    assert(views(r@)[before.len() as int] == t@);
                }
            }
            assert(forall|x: Seq<char>| before.contains(x) ==> views(r@).contains(x)) by {
                assert forall|x: Seq<char>| before.contains(x) implies views(r@).contains(x) by {
                    let k = choose|k: int| 0 <= k < before.len() && before[k] == x;
                    if views(r@) == before.push(t@) {
                        assert(views(r@)[k] == x);
                    }
                }
            }
            j = j + 1;
            proof {
                assert(facts@[i as int].metadata.tags@[j - 1] == *t);
                assert forall|x: Seq<char>| views(r@).to_set().contains(x) <==> tags_seen(
                    facts@,
                    i as int,
                    j as int,
                ).contains(x) by {
                    if views(r@).to_set().contains(x) {
                        if x == t@ {
                            assert((facts@[i as int].metadata.tags@[j - 1])@ == x);
                        } else {
                            let k = choose|k: int| 0 <= k < views(r@).len() && views(r@)[k] == x;
                            if views(r@) == before.push(t@) && k == before.len() {
                                assert(views(r@)[k] == t@);
                            }
                            assert(before[k] == x);
                            assert(before.to_set().contains(x));
                            let (a, b) = choose|a: int, b: int|
                                0 <= a <= i && a < facts@.len() && 0 <= b < facts@[a].metadata.tags@.len()
                                    && (a < i || b < j - 1) && (#[trigger] facts@[a].metadata.tags@[b])@ == x;
                            assert((facts@[a].metadata.tags@[b])@ == x);
                        }
                    }
                    if tags_seen(facts@, i as int, j as int).contains(x) {
                        if x != t@ {
                            let (a, b) = choose|a: int, b: int|
                                0 <= a <= i && a < facts@.len() && 0 <= b < facts@[a].metadata.tags@.len()
                                    && (a < i || b < j) && (#[trigger] facts@[a].metadata.tags@[b])@ == x;
                            if a == i && b == j - 1 {
                                assert(facts@[a].metadata.tags@[b] == *t);
                            } else {
                                assert((facts@[a].metadata.tags@[b])@ == x);
                                assert(tags_seen(facts@, i as int, j - 1).contains(x));
                                assert(before.to_set().contains(x));
                                assert(before.contains(x));
                            }
                        }
                    }
                }
                assert(views(r@).to_set() =~= tags_seen(facts@, i as int, j as int));
            }
        }
        i = i + 1;
        proof {
            assert forall|x: Seq<char>| tags_seen(facts@, i - 1, tags@.len() as int).contains(x)
                <==> tags_seen(facts@, i as int, 0).contains(x) by {
                if tags_seen(facts@, i as int, 0).contains(x) {
                    let (a, b) = choose|a: int, b: int|
                        0 <= a <= i && a < facts@.len() && 0 <= b < facts@[a].metadata.tags@.len() && (a
                            < i || b < 0) && (#[trigger] facts@[a].metadata.tags@[b])@ == x;
                    assert(tags_seen(facts@, i - 1, tags@.len() as int).contains(x));
                }
            }
            assert(tags_seen(facts@, i - 1, tags@.len() as int) =~= tags_seen(facts@, i as int, 0));
        }
    }
    proof {
        assert forall|x: Seq<char>| tags_seen(facts@, i as int, 0).contains(x) <==> all_tags(
            facts@,
        ).contains(x) by {
            if all_tags(facts@).contains(x) {
                let (a, b) = choose|a: int, b: int|
                    0 <= a < facts@.len() && 0 <= b < facts@[a].metadata.tags@.len() && (#[trigger] facts@[a].metadata.tags@[b])@
                        == x;
                assert(tags_seen(facts@, i as int, 0).contains(x));
            }
        }
        assert(tags_seen(facts@, i as int, 0) =~= all_tags(facts@));
    }
    r
}


/// `p` describes the recorded prompt `f`.
pub open spec fn describes_prompt(p: PromptInfo, f: Fact) -> bool {
    &&& p.id == f.id
    &&& p.description == f.metadata.description
    &&& p.tags@ == f.metadata.tags@
    &&& p.version == f.metadata.version
    &&& p.example_usage == f.content
}

/// `t` describes the recorded template `f`.
pub open spec fn describes_template(t: TemplateInfo, f: Fact) -> bool {
    &&& t.id == f.id
    &&& t.description == f.metadata.description
    &&& t.tags@ == f.metadata.tags@
    &&& t.version == f.metadata.version
    &&& t.typical_use_cases@ == f.metadata.references@
}

fn opt_copy(o: &Option<String>) -> (r: Option<String>)
    ensures
        r == *o,
{
    match o {
        Some(s) => Some(s.clone()),
        None => None,
    }
}

fn texts(a: &str, b: &str, c: &str) -> (r: Vec<String>)
    ensures
        views(r@) == seq![a@, b@, c@],
{
    let mut r: Vec<String> = Vec::new();
    r.push(String::from_str(a));
    r.push(String::from_str(b));
    r.push(String::from_str(c));
    assert(views(r@) =~= seq![a@, b@, c@]);
    r
}

/// The guide to the recorded prompts.
pub fn analyze_prompts(prompts: &[Fact]) -> (r: PromptsGuide)
    ensures
        r.available_prompts@.len() == prompts@.len(),
        forall|i: int| 0 <= i < prompts@.len() ==> describes_prompt(#[trigger] r.available_prompts@[i], prompts@[i]),
        views(r.prompt_categories@).no_duplicates(),
        views(r.prompt_categories@).to_set() == all_tags(prompts@),
        views(r.recommended_usage@) == seq![
            "Start with high-level prompts before diving into specifics"@,
            "Include context from previous interactions when relevant"@,
            "Reference specific project goals in your prompts"@,
        ],
{
    let mut available: Vec<PromptInfo> = Vec::new();
    let mut i: usize = 0;
    while i < prompts.len()
        invariant
            i <= prompts@.len(),
            available@.len() == i,
            forall|k: int| 0 <= k < i ==> describes_prompt(#[trigger] available@[k], prompts@[k]),
        decreases prompts.len() - i,
    {
        let f = &prompts[i];
        available.push(
            PromptInfo {
                id: f.id.clone(),
                description: opt_copy(&f.metadata.description),
                tags: copy_texts(&f.metadata.tags),
                version: opt_copy(&f.metadata.version),
                example_usage: f.content.clone(),
            },
        );
        i = i + 1;
    }
    PromptsGuide {
        available_prompts: available,
        prompt_categories: categories(prompts),
        recommended_usage: texts(
            "Start with high-level prompts before diving into specifics",
            "Include context from previous interactions when relevant",
            "Reference specific project goals in your prompts",
        ),
    }
}

/// The guide to the recorded templates.
pub fn analyze_templates(templates: &[Fact]) -> (r: TemplatesGuide)
    ensures
        r.available_templates@.len() == templates@.len(),
        forall|i: int|
            0 <= i < templates@.len() ==> describes_template(#[trigger] r.available_templates@[i], templates@[i]),
        views(r.template_categories@).no_duplicates(),
        views(r.template_categories@).to_set() == all_tags(templates@),
        views(r.usage_patterns@) == seq![
            "Use templates as starting points for common tasks"@,
            "Customize templates based on specific project needs"@,
            "Reference templates in prompts for consistent output"@,
        ],
{
    let mut available: Vec<TemplateInfo> = Vec::new();
    let mut i: usize = 0;
    while i < templates.len()
        invariant
            i <= templates@.len(),
            available@.len() == i,
            forall|k: int| 0 <= k < i ==> describes_template(#[trigger] available@[k], templates@[k]),
        decreases templates.len() - i,
    {
        let f = &templates[i];
        available.push(
            TemplateInfo {
                id: f.id.clone(),
                description: opt_copy(&f.metadata.description),
                tags: copy_texts(&f.metadata.tags),
                version: opt_copy(&f.metadata.version),
                typical_use_cases: copy_texts(&f.metadata.references),
            },
        );
        i = i + 1;
    }
    TemplatesGuide {
        available_templates: available,
        template_categories: categories(templates),
        usage_patterns: texts(
            "Use templates as starting points for common tasks",
            "Customize templates based on specific project needs",
            "Reference templates in prompts for consistent output",
        ),
    }
}

/// The contents of the entries of `h` tagged `tag`, in order.
pub open spec fn tagged_contents(h: Seq<Fact>, tag: Seq<char>) -> Seq<Seq<char>>
    decreases h.len(),
{
    if h.len() == 0 {
        Seq::empty()
    } else {
        tagged_contents(h.drop_last(), tag) + if views(h.last().metadata.tags@).contains(tag) {
            seq![h.last().content@]
        } else {
            Seq::empty()
        }
    }
}

/// `s`, or the three defaults when `s` is empty.
pub open spec fn or_defaults(s: Seq<Seq<char>>, a: Seq<char>, b: Seq<char>, c: Seq<char>) -> Seq<
    Seq<char>,
> {
    if s.len() == 0 {
        seq![a, b, c]
    } else {
        s
    }
}

/// What the history teaches: entries tagged `pattern`, `success` and
/// `lesson`, each list falling back to general advice when empty.
pub fn analyze_history(history: &[Fact]) -> (r: InteractionHistory)
    ensures
        views(r.common_patterns@) == or_defaults(
            tagged_contents(history@, "pattern"@),
            "Start with clear project goals"@,
            "Break down complex tasks"@,
            "Iterate based on feedback"@,
        ),
        views(r.successful_approaches@) == or_defaults(
            tagged_contents(history@, "success"@),
            "Use specific, context-rich prompts"@,
            "Maintain consistent project structure"@,
            "Document decisions and rationale"@,
        ),
        views(r.lessons_learned@) == or_defaults(
            tagged_contents(history@, "lesson"@),
            "Keep prompts focused and specific"@,
            "Maintain clear project context"@,
            "Document successful patterns"@,
        ),
{
    let mut patterns: Vec<String> = Vec::new();
    let mut successes: Vec<String> = Vec::new();
    let mut lessons: Vec<String> = Vec::new();
    let mut i: usize = 0;
    while i < history.len()
        invariant
            i <= history@.len(),
            views(patterns@) == tagged_contents(history@.subrange(0, i as int), "pattern"@),
            views(successes@) == tagged_contents(history@.subrange(0, i as int), "success"@),
            views(lessons@) == tagged_contents(history@.subrange(0, i as int), "lesson"@),
        decreases history.len() - i,
    {
        let e = &history[i];
        let ghost pre = history@.subrange(0, i as int);
        if list_has(&e.metadata.tags, "success") {
            successes.push(e.content.clone());
        }
        if list_has(&e.metadata.tags, "pattern") {
            patterns.push(e.content.clone());
        }
        if list_has(&e.metadata.tags, "lesson") {
            lessons.push(e.content.clone());
        }
        i = i + 1;
        proof {
            let cur = history@.subrange(0, i as int);
            assert(cur.drop_last() =~= pre);
            assert(cur.last() == *e);
            assert(views(patterns@) =~= tagged_contents(cur, "pattern"@));
            assert(views(successes@) =~= tagged_contents(cur, "success"@));
            assert(views(lessons@) =~= tagged_contents(cur, "lesson"@));
        }
    }
    assert(history@.subrange(0, history@.len() as int) =~= history@);
    if patterns.len() == 0 {
        patterns = texts(
            "Start with clear project goals",
            "Break down complex tasks",
            "Iterate based on feedback",
        );
    }
    if successes.len() == 0 {
        successes = texts(
            "Use specific, context-rich prompts",
            "Maintain consistent project structure",
            "Document decisions and rationale",
        );
    }
    if lessons.len() == 0 {
        lessons = texts(
            "Keep prompts focused and specific",
            "Maintain clear project context",
            "Document successful patterns",
        );
    }
    InteractionHistory {
        common_patterns: patterns,
        successful_approaches: successes,
        lessons_learned: lessons,
    }
}

/// General practices, preceded by advice on prompts, templates and history
/// for each kind that has been recorded.
pub open spec fn best_practices(prompts: nat, templates: nat, history: nat) -> Seq<Seq<char>> {
    (if prompts > 0 {
        seq![
            "Use structured prompts with clear objectives"@,
            "Include relevant context in each prompt"@,
        ]
    } else {
        Seq::empty()
    }) + (if templates > 0 {
        seq![
            "Leverage existing templates for consistency"@,
            "Customize templates based on project needs"@,
        ]
    } else {
        Seq::empty()
    }) + (if history > 0 {
        seq![
            "Learn from past interactions and outcomes"@,
            "Document successful approaches for future reference"@,
        ]
    } else {
        Seq::empty()
    }) + seq![
        "Maintain clear project goals and progress markers"@,
        "Use consistent terminology across interactions"@,
        "Document important decisions and their rationale"@,
        "Keep interaction history organized and tagged"@,
    ]
}

fn push_text(v: &mut Vec<String>, s: &str)
    ensures
        views(final(v)@) == views(old(v)@).push(s@),
{
    v.push(String::from_str(s));
    assert(views(v@) =~= views(old(v)@).push(s@));
}

/// Best practices for working on the project with an assistant.
pub fn generate_best_practices(prompts: &[Fact], templates: &[Fact], history: &[Fact]) -> (r: Vec<
    String,
>)
    ensures
        views(r@) == best_practices(prompts@.len(), templates@.len(), history@.len()),
{
    let mut r: Vec<String> = Vec::new();
    if prompts.len() > 0 {
        push_text(&mut r, "Use structured prompts with clear objectives");
        push_text(&mut r, "Include relevant context in each prompt");
    }
    if templates.len() > 0 {
        push_text(&mut r, "Leverage existing templates for consistency");
        push_text(&mut r, "Customize templates based on project needs");
    }
    if history.len() > 0 {
        push_text(&mut r, "Learn from past interactions and outcomes");
        push_text(&mut r, "Document successful approaches for future reference");
    }
    push_text(&mut r, "Maintain clear project goals and progress markers");
    push_text(&mut r, "Use consistent terminology across interactions");
    push_text(&mut r, "Document important decisions and their rationale");
    push_text(&mut r, "Keep interaction history organized and tagged");
    assert(views(r@) =~= best_practices(prompts@.len(), templates@.len(), history@.len()));
    r
}

/// Each marker as `name: description`.
pub open spec fn marker_lines(ms: Seq<ProgressMarker>) -> Seq<Seq<char>> {
    ms.map_values(|m: ProgressMarker| m.name@ + ": "@ + m.description@)
}

fn describe_markers(ms: &Vec<ProgressMarker>) -> (r: Vec<String>)
    ensures
        views(r@) == marker_lines(ms@),
{
    let mut r: Vec<String> = Vec::new();
    let mut i: usize = 0;
    while i < ms.len()
        invariant
            i <= ms@.len(),
            views(r@) == marker_lines(ms@.subrange(0, i as int)),
        decreases ms.len() - i,
    {
        let m = &ms[i];
        let mut line = m.name.clone();
        line.append(": ");
        line.append(m.description.as_str());
        let ghost prev = views(r@);
        let ghost pre = ms@.subrange(0, i as int);
        r.push(line);
        assert(views(r@) =~= prev.push(m.name@ + ": "@ + m.description@));
        i = i + 1;
        assert(ms@.subrange(0, i as int) =~= pre.push(*m));
        assert(marker_lines(pre.push(*m)) =~= marker_lines(pre).push(m.name@ + ": "@ + m.description@));
    }
    assert(ms@.subrange(0, ms@.len() as int) =~= ms@);
    r
}

/// The guide to the project with configuration `config` and the recorded
/// prompts, templates and history.
pub fn generate_llm_documentation(
    config: &ProjectConfig,
    prompts: &[Fact],
    templates: &[Fact],
    history: &[Fact],
) -> (r: LLMDocumentation)
    ensures
        r.project_info.name == config.name,
        r.project_info.description == config.description,
        r.project_info.goals@ == config.goals@,
        views(r.project_info.progress_markers@) == marker_lines(config.progress_markers@),
        r.prompts_guide.available_prompts@.len() == prompts@.len(),
        forall|i: int|
            0 <= i < prompts@.len() ==> describes_prompt(#[trigger] r.prompts_guide.available_prompts@[i], prompts@[i]),
        views(r.prompts_guide.prompt_categories@).to_set() == all_tags(prompts@),
        views(r.prompts_guide.prompt_categories@).no_duplicates(),
        r.templates_guide.available_templates@.len() == templates@.len(),
        forall|i: int|
            0 <= i < templates@.len() ==> describes_template(
                #[trigger] r.templates_guide.available_templates@[i],
                templates@[i],
            ),
        views(r.templates_guide.template_categories@).to_set() == all_tags(templates@),
        views(r.templates_guide.template_categories@).no_duplicates(),
        views(r.interaction_history.common_patterns@) == or_defaults(
            tagged_contents(history@, "pattern"@),
            "Start with clear project goals"@,
            "Break down complex tasks"@,
            "Iterate based on feedback"@,
        ),
        views(r.interaction_history.successful_approaches@) == or_defaults(
            tagged_contents(history@, "success"@),
            "Use specific, context-rich prompts"@,
            "Maintain consistent project structure"@,
            "Document decisions and rationale"@,
        ),
        views(r.interaction_history.lessons_learned@) == or_defaults(
            tagged_contents(history@, "lesson"@),
            "Keep prompts focused and specific"@,
            "Maintain clear project context"@,
            "Document successful patterns"@,
        ),
        views(r.best_practices@) == best_practices(prompts@.len(), templates@.len(), history@.len()),
{
    let project_info = ProjectInfo {
        name: config.name.clone(),
        description: config.description.clone(),
        goals: copy_texts(&config.goals),
        progress_markers: describe_markers(&config.progress_markers),
    };
    LLMDocumentation {
        project_info,
        prompts_guide: analyze_prompts(prompts),
        templates_guide: analyze_templates(templates),
        interaction_history: analyze_history(history),
        best_practices: generate_best_practices(prompts, templates, history),
    }
}
} // verus!
