//! Rule-based project suggestions: canned advice chosen from the validation
//! report, the progress report and the number of documented facts.

use vstd::prelude::*;
use crate::check::{bullet_lines, bullets};
use crate::facts::Fact;
use crate::features::text_or;
use crate::progress::ProgressReport;
use crate::text::{
    contains_text, copy_texts, decimal, decimal_text, occurs_in, text_eq, views,
};
use crate::validation::{ValidationCheck, ValidationReport, ValidationStatus};

verus! {

/// A piece of advice with its category and priority.
#[derive(Debug)]
pub struct Suggestion {
    pub category: SuggestionCategory,
    pub priority: SuggestionPriority,
    pub title: String,
    pub description: String,
    pub recommended_actions: Vec<String>,
}

/// What a suggestion is about.
#[derive(Clone, Copy, Debug, PartialEq, Eq, Structural)]
pub enum SuggestionCategory {
    Technical,
    Documentation,
    Refactoring,
    Testing,
    ProjectManagement,
}

/// How urgent a suggestion is; `Critical` is the highest.
#[derive(Clone, Copy, Debug, PartialEq, Eq, Structural)]
pub enum SuggestionPriority {
    Critical,
    High,
    Medium,
    Low,
}

/// The urgency of a priority as a number: higher is more urgent.
pub open spec fn urgency(p: SuggestionPriority) -> nat {
    match p {
        SuggestionPriority::Critical => 3,
        SuggestionPriority::High => 2,
        SuggestionPriority::Medium => 1,
        SuggestionPriority::Low => 0,
    }
}

impl SuggestionPriority {
    /// The urgency of the priority: higher is more urgent.
    pub fn rank(&self) -> (r: u8)
        ensures
            r as nat == urgency(*self),
    {
        match self {
            SuggestionPriority::Critical => 3,
            SuggestionPriority::High => 2,
            SuggestionPriority::Medium => 1,
            SuggestionPriority::Low => 0,
        }
    }

    /// The name of the priority.
    pub fn name(&self) -> (r: &'static str)
        ensures
            r@ == priority_word(*self),
    {
        match self {
            SuggestionPriority::Critical => "Critical",
            SuggestionPriority::High => "High",
            SuggestionPriority::Medium => "Medium",
            SuggestionPriority::Low => "Low",
        }
    }
}

/// The name of a suggestion priority.
pub open spec fn priority_word(p: SuggestionPriority) -> Seq<char> {
    match p {
        SuggestionPriority::Critical => "Critical"@,
        SuggestionPriority::High => "High"@,
        SuggestionPriority::Medium => "Medium"@,
        SuggestionPriority::Low => "Low"@,
    }
}

/// The name of a suggestion category.
pub open spec fn category_word(c: SuggestionCategory) -> Seq<char> {
    match c {
        SuggestionCategory::Technical => "Technical"@,
        SuggestionCategory::Documentation => "Documentation"@,
        SuggestionCategory::Refactoring => "Refactoring"@,
        SuggestionCategory::Testing => "Testing"@,
        SuggestionCategory::ProjectManagement => "ProjectManagement"@,
    }
}

impl SuggestionCategory {
    /// The name of the category.
    pub fn name(&self) -> (r: &'static str)
        ensures
            r@ == category_word(*self),
    {
        match self {
            SuggestionCategory::Technical => "Technical",
            SuggestionCategory::Documentation => "Documentation",
            SuggestionCategory::Refactoring => "Refactoring",
            SuggestionCategory::Testing => "Testing",
            SuggestionCategory::ProjectManagement => "ProjectManagement",
        }
    }
}

/// What a suggestion says, field by field.
pub type SuggestionShape = (
    SuggestionCategory,
    SuggestionPriority,
    Seq<char>,
    Seq<char>,
    Seq<Seq<char>>,
);

/// What `s` says.
pub open spec fn shape(s: Suggestion) -> SuggestionShape {
    (s.category, s.priority, s.title@, s.description@, views(s.recommended_actions@))
}

/// What each of `s` says.
pub open spec fn shapes(s: Seq<Suggestion>) -> Seq<SuggestionShape> {
    s.map_values(|x: Suggestion| shape(x))
}

/// The suggestion a validation check gives rise to, if any.
pub open spec fn check_advice(c: ValidationCheck) -> Seq<SuggestionShape> {
    match c.status {
        ValidationStatus::Error => seq![
            (
                SuggestionCategory::Technical,
                SuggestionPriority::Critical,
                "Critical Technical Issue: "@ + c.name@,
                text_or(c.message, Seq::empty()),
                seq![
                    "Immediately address the reported configuration issue"@,
                    "Review and correct project configuration"@,
                ],
            ),
        ],
        ValidationStatus::Warning => seq![
            (
                SuggestionCategory::Technical,
                SuggestionPriority::Medium,
                "Technical Configuration Warning: "@ + c.name@,
                text_or(c.message, Seq::empty()),
                seq!["Review and improve project configuration"@, "Consider potential optimizations"@],
            ),
        ],
        ValidationStatus::Pass => Seq::empty(),
    }
}

/// The suggestions that the checks give rise to, in order.
pub open spec fn checks_advice(cs: Seq<ValidationCheck>) -> Seq<SuggestionShape>
    decreases cs.len(),
{
    if cs.len() == 0 {
        Seq::empty()
    } else {
        checks_advice(cs.drop_last()) + check_advice(cs.last())
    }
}

/// The advice given when fewer than half the markers are complete.
pub open spec fn low_progress_advice() -> SuggestionShape {
    (
        SuggestionCategory::Technical,
        SuggestionPriority::High,
        "Low Progress Detected"@,
        "Project progress is below 50% of planned markers"@,
        seq![
            "Review project timeline and milestones"@,
            "Identify and address bottlenecks"@,
            "Consider breaking down complex tasks"@,
        ],
    )
}

/// Technical suggestions: one per failed or warned check, and one when
/// fewer than half (rounded down) of the markers are complete.
pub open spec fn technical_advice(checks: Seq<ValidationCheck>, completed: nat, total: nat) -> Seq<
    SuggestionShape,
> {
    checks_advice(checks) + if completed < total / 2 {
        seq![low_progress_advice()]
    } else {
        Seq::empty()
    }
}

/// Documentation suggestions from the numbers of prompts and templates.
pub open spec fn documentation_advice(prompts: nat, templates: nat) -> Seq<SuggestionShape> {
    (if prompts == 0 {
        seq![
            (
                SuggestionCategory::Documentation,
                SuggestionPriority::High,
                "No Project Prompts Documented"@,
                "No prompts have been captured for this project"@,
                seq![
                    "Create initial project prompts"@,
                    "Document key interaction patterns"@,
                    "Capture successful prompt strategies"@,
                ],
            ),
        ]
    } else if prompts < 5 {
        seq![
            (
                SuggestionCategory::Documentation,
                SuggestionPriority::Medium,
                "Limited Prompt Documentation"@,
                "Few prompts have been documented for this project"@,
                seq![
                    "Expand prompt documentation"@,
                    "Add more context to existing prompts"@,
                    "Tag and categorize prompts"@,
                ],
            ),
        ]
    } else {
        Seq::empty()
    }) + if templates == 0 {
        seq![
            (
                SuggestionCategory::Documentation,
                SuggestionPriority::Medium,
                "No Project Templates Documented"@,
                "No templates have been created for this project"@,
                seq![
                    "Create initial project templates"@,
                    "Identify common interaction patterns"@,
                    "Develop reusable template structures"@,
                ],
            ),
        ]
    } else {
        Seq::empty()
    }
}

/// The check is about code quality: its name mentions `code` or `style`.
pub open spec fn is_quality_check(c: ValidationCheck) -> bool {
    occurs_in(c.name@, "code"@) || occurs_in(c.name@, "style"@)
}

/// The messages of the code-quality checks among `cs`, in order.
pub open spec fn quality_messages(cs: Seq<ValidationCheck>) -> Seq<Seq<char>>
    decreases cs.len(),
{
    if cs.len() == 0 {
        Seq::empty()
    } else {
        quality_messages(cs.drop_last()) + if is_quality_check(cs.last()) {
            seq![text_or(cs.last().message, Seq::empty())]
        } else {
            Seq::empty()
        }
    }
}

/// One refactoring suggestion, listing the messages of the code-quality
/// checks, when there is any such check.
pub open spec fn refactoring_advice(cs: Seq<ValidationCheck>) -> Seq<SuggestionShape> {
    if quality_messages(cs).len() == 0 {
        Seq::empty()
    } else {
        seq![
            (
                SuggestionCategory::Refactoring,
                SuggestionPriority::Medium,
                "Code Quality Improvement Opportunities"@,
                "Multiple code quality checks suggest potential refactoring"@,
                quality_messages(cs),
            ),
        ]
    }
}

/// One testing suggestion when there are markers and none is complete.
pub open spec fn testing_advice(completed: nat, total: nat) -> Seq<SuggestionShape> {
    if total > 0 && completed == 0 {
        seq![
            (
                SuggestionCategory::Testing,
                SuggestionPriority::High,
                "No Progress Markers Completed"@,
                "No project milestones have been marked as complete"@,
                seq![
                    "Create initial test coverage for project milestones"@,
                    "Develop comprehensive test suite"@,
                    "Implement continuous integration checks"@,
                ],
            ),
        ]
    } else {
        Seq::empty()
    }
}

fn make(
    category: SuggestionCategory,
    priority: SuggestionPriority,
    title: String,
    description: String,
    recommended_actions: Vec<String>,
) -> (r: Suggestion)
    ensures
        shape(r) == (category, priority, title@, description@, views(recommended_actions@)),
{
    Suggestion { category, priority, title, description, recommended_actions }
}

fn texts2(a: &str, b: &str) -> (r: Vec<String>)
    ensures
        views(r@) == seq![a@, b@],
{
    let mut r: Vec<String> = Vec::new();
    r.push(String::from_str(a));
    r.push(String::from_str(b));
    assert(views(r@) =~= seq![a@, b@]);
    r
}

fn texts3(a: &str, b: &str, c: &str) -> (r: Vec<String>)
    ensures
        views(r@) == seq![a@, b@, c@],
{
    let mut r: Vec<String> = Vec::new();
    r.push(String::from_str(a));
    r.push(String::from_str(b));
    r.push(String::from_str(c));
    assert(views(r@) =~= seq![a@, b@, c@]);
    r
}

fn message_or_empty(m: &Option<String>) -> (r: String)
    ensures
        r@ == text_or(*m, Seq::empty()),
{
    match m {
        Some(s) => s.clone(),
        None => String::new(),
    }
}

/// Technical suggestions from the validation checks and the progress.
pub fn generate_technical_suggestions(
    validation_report: &ValidationReport,
    progress_report: &ProgressReport,
) -> (r: Vec<Suggestion>)
    ensures
        shapes(r@) == technical_advice(
            validation_report.checks@,
            progress_report.completed_markers as nat,
            progress_report.total_markers as nat,
        ),
{
    let checks = &validation_report.checks;
    let mut r: Vec<Suggestion> = Vec::new();
    let mut i: usize = 0;
    while i < checks.len()
        invariant
            checks@ == validation_report.checks@,
            i <= checks@.len(),
            shapes(r@) == checks_advice(checks@.subrange(0, i as int)),
        decreases checks.len() - i,
    {
        let c = &checks[i];
        let ghost before = shapes(r@);
        match c.status {
            ValidationStatus::Error => {
                let mut title = String::from_str("Critical Technical Issue: ");
                title.append(c.name.as_str());
                r.push(
                    make(
                        SuggestionCategory::Technical,
                        SuggestionPriority::Critical,
                        title,
                        message_or_empty(&c.message),
                        texts2(
                            "Immediately address the reported configuration issue",
                            "Review and correct project configuration",
                        ),
                    ),
                );
            },
            ValidationStatus::Warning => {
                let mut title = String::from_str("Technical Configuration Warning: ");
                title.append(c.name.as_str());
                r.push(
                    make(
                        SuggestionCategory::Technical,
                        SuggestionPriority::Medium,
                        title,
                        message_or_empty(&c.message),
                        texts2(
                            "Review and improve project configuration",
                            "Consider potential optimizations",
                        ),
                    ),
                );
            },
            ValidationStatus::Pass => {},
        }
        i = i + 1;
        proof {
            let cur = checks@.subrange(0, i as int);
            assert(cur.drop_last() =~= checks@.subrange(0, i - 1));
            assert(cur.last() == *c);
            assert(shapes(r@) =~= before + check_advice(*c));
        }
    }
    assert(checks@.subrange(0, checks@.len() as int) =~= checks@);
    if progress_report.completed_markers < progress_report.total_markers / 2 {
        r.push(
            make(
                SuggestionCategory::Technical,
                SuggestionPriority::High,
                String::from_str("Low Progress Detected"),
                String::from_str("Project progress is below 50% of planned markers"),
                texts3(
                    "Review project timeline and milestones",
                    "Identify and address bottlenecks",
                    "Consider breaking down complex tasks",
                ),
            ),
        );
    }
    assert(shapes(r@) =~= technical_advice(
        validation_report.checks@,
        progress_report.completed_markers as nat,
        progress_report.total_markers as nat,
    ));
    r
}

/// Documentation suggestions from the prompts and templates captured so far.
pub fn generate_documentation_suggestions(prompts: &[Fact], templates: &[Fact]) -> (r: Vec<Suggestion>)
    ensures
        shapes(r@) == documentation_advice(prompts@.len(), templates@.len()),
{
    let mut r: Vec<Suggestion> = Vec::new();
    if prompts.len() == 0 {
        r.push(
            make(
                SuggestionCategory::Documentation,
                SuggestionPriority::High,
                String::from_str("No Project Prompts Documented"),
                String::from_str("No prompts have been captured for this project"),
                texts3(
                    "Create initial project prompts",
                    "Document key interaction patterns",
                    "Capture successful prompt strategies",
                ),
            ),
        );
    } else if prompts.len() < 5 {
        r.push(
            make(
                SuggestionCategory::Documentation,
                SuggestionPriority::Medium,
                String::from_str("Limited Prompt Documentation"),
                String::from_str("Few prompts have been documented for this project"),
                texts3(
                    "Expand prompt documentation",
                    "Add more context to existing prompts",
                    "Tag and categorize prompts",
                ),
            ),
        );
    }
    if templates.len() == 0 {
        r.push(
            make(
                SuggestionCategory::Documentation,
                SuggestionPriority::Medium,
                String::from_str("No Project Templates Documented"),
                String::from_str("No templates have been created for this project"),
                texts3(
                    "Create initial project templates",
                    "Identify common interaction patterns",
                    "Develop reusable template structures",
                ),
            ),
        );
    }
    assert(shapes(r@) =~= documentation_advice(prompts@.len(), templates@.len()));
    r
}

/// A refactoring suggestion when some check is about code quality.
pub fn generate_refactoring_suggestions(validation_report: &ValidationReport) -> (r: Vec<Suggestion>)
    ensures
        shapes(r@) == refactoring_advice(validation_report.checks@),
{
    let checks = &validation_report.checks;
    let mut actions: Vec<String> = Vec::new();
    let mut i: usize = 0;
    while i < checks.len()
        invariant
            checks@ == validation_report.checks@,
            i <= checks@.len(),
            views(actions@) == quality_messages(checks@.subrange(0, i as int)),
        decreases checks.len() - i,
    {
        let c = &checks[i];
        if contains_text(c.name.as_str(), "code") || contains_text(c.name.as_str(), "style") {
            actions.push(message_or_empty(&c.message));
        }
        i = i + 1;
        proof {
            let cur = checks@.subrange(0, i as int);
            assert(cur.drop_last() =~= checks@.subrange(0, i - 1));
            assert(cur.last() == *c);
            assert(views(actions@) =~= quality_messages(cur));
        }
    }
    assert(checks@.subrange(0, checks@.len() as int) =~= checks@);
    let mut r: Vec<Suggestion> = Vec::new();
    if actions.len() > 0 {
        r.push(
            make(
                SuggestionCategory::Refactoring,
                SuggestionPriority::Medium,
                String::from_str("Code Quality Improvement Opportunities"),
                String::from_str("Multiple code quality checks suggest potential refactoring"),
                actions,
            ),
        );
    }
    assert(shapes(r@) =~= refactoring_advice(validation_report.checks@));
    r
}

/// A testing suggestion when no marker has been completed yet.
pub fn generate_testing_suggestions(progress_report: &ProgressReport) -> (r: Vec<Suggestion>)
    ensures
        shapes(r@) == testing_advice(
            progress_report.completed_markers as nat,
            progress_report.total_markers as nat,
        ),
{
    let mut r: Vec<Suggestion> = Vec::new();
    if progress_report.total_markers > 0 && progress_report.completed_markers == 0 {
        r.push(
            make(
                SuggestionCategory::Testing,
                SuggestionPriority::High,
                String::from_str("No Progress Markers Completed"),
                String::from_str("No project milestones have been marked as complete"),
                texts3(
                    "Create initial test coverage for project milestones",
                    "Develop comprehensive test suite",
                    "Implement continuous integration checks",
                ),
            ),
        );
    }
    assert(shapes(r@) =~= testing_advice(
        progress_report.completed_markers as nat,
        progress_report.total_markers as nat,
    ));
    r
}


/// The suggestion type `t` asks for the kind `kind` (`all` asks for every kind).
pub open spec fn wants(t: Seq<char>, kind: Seq<char>) -> bool {
    t == "all"@ || t == kind
}

/// Every suggestion of the kinds asked for, kind by kind in the order
/// technical, documentation, refactoring, testing.
pub open spec fn advice_for(
    checks: Seq<ValidationCheck>,
    completed: nat,
    total: nat,
    prompts: nat,
    templates: nat,
    t: Seq<char>,
) -> Seq<SuggestionShape> {
    (if wants(t, "technical"@) {
        technical_advice(checks, completed, total)
    } else {
        Seq::empty()
    }) + (if wants(t, "documentation"@) {
        documentation_advice(prompts, templates)
    } else {
        Seq::empty()
    }) + (if wants(t, "refactoring"@) {
        refactoring_advice(checks)
    } else {
        Seq::empty()
    }) + (if wants(t, "testing"@) {
        testing_advice(completed, total)
    } else {
        Seq::empty()
    })
}

/// The suggestions of urgency `k` that a verbosity keeps: `brief` keeps only
/// high and critical ones.
pub open spec fn picked(brief: bool, k: nat) -> spec_fn(SuggestionShape) -> bool {
    |s: SuggestionShape| (!brief || urgency(s.1) >= 2) && urgency(s.1) == k
}

/// The suggestions that a verbosity keeps, most urgent first, in their
/// order they were generated in within one urgency.
pub open spec fn ranked(s: Seq<SuggestionShape>, brief: bool) -> Seq<SuggestionShape> {
    s.filter(picked(brief, 3)) + s.filter(picked(brief, 2)) + s.filter(picked(brief, 1)) + s.filter(
        picked(brief, 0),
    )
}

fn duplicate(s: &Suggestion) -> (r: Suggestion)
    ensures
        shape(r) == shape(*s),
{
    Suggestion {
        category: s.category,
        priority: s.priority,
        title: s.title.clone(),
        description: s.description.clone(),
        recommended_actions: copy_texts(&s.recommended_actions),
    }
}

fn collect_urgency(all: &Vec<Suggestion>, brief: bool, k: u8, out: &mut Vec<Suggestion>)
    ensures
        shapes(final(out)@) == shapes(old(out)@) + shapes(all@).filter(picked(brief, k as nat)),
{
    let ghost pred = picked(brief, k as nat);
    let ghost start = shapes(out@);
    let mut i: usize = 0;
    while i < all.len()
        invariant
            i <= all@.len(),
            pred == picked(brief, k as nat),
            shapes(out@) == start + shapes(all@.subrange(0, i as int)).filter(pred),
        decreases all.len() - i,
    {
        let s = &all[i];
        let rank = s.priority.rank();
        let ghost pre = shapes(all@.subrange(0, i as int));
        let ghost before = shapes(out@);
        if (!brief || rank >= 2) && rank == k {
            out.push(duplicate(s));
            assert(shapes(out@) =~= before.push(shape(*s)));
        }
        i = i + 1;
        proof {
            let cur = shapes(all@.subrange(0, i as int));
            assert(cur =~= pre.push(shape(*s)));
            pre.lemma_filter_push(shape(*s), pred);
            assert(pred(shape(*s)) == ((!brief || rank >= 2) && rank == k));
            assert(shapes(out@) =~= start + cur.filter(pred));
        }
    }
    assert(all@.subrange(0, all@.len() as int) =~= all@);
}

/// Suggestions of the requested type (`all`, `technical`, `documentation`,
/// `refactoring` or `testing`), kept by verbosity (`brief` keeps high and
/// critical only) and ordered most urgent first.
pub fn generate_suggestions(
    validation_report: &ValidationReport,
    progress_report: &ProgressReport,
    prompts: &[Fact],
    templates: &[Fact],
    suggestion_type: &str,
    verbosity: &str,
) -> (r: Vec<Suggestion>)
    ensures
        shapes(r@) == ranked(
            advice_for(
                validation_report.checks@,
                progress_report.completed_markers as nat,
                progress_report.total_markers as nat,
                prompts@.len(),
                templates@.len(),
                suggestion_type@,
            ),
            verbosity@ == "brief"@,
        ),
{
    let all_kinds = text_eq(suggestion_type, "all");
    let mut all: Vec<Suggestion> = Vec::new();
    if all_kinds || text_eq(suggestion_type, "technical") {
        let mut part = generate_technical_suggestions(validation_report, progress_report);
        all.append(&mut part);
    }
    if all_kinds || text_eq(suggestion_type, "documentation") {
        let mut part = generate_documentation_suggestions(prompts, templates);
        all.append(&mut part);
    }
    if all_kinds || text_eq(suggestion_type, "refactoring") {
        let mut part = generate_refactoring_suggestions(validation_report);
        all.append(&mut part);
    }
    if all_kinds || text_eq(suggestion_type, "testing") {
        let mut part = generate_testing_suggestions(progress_report);
        all.append(&mut part);
    }
    assert(shapes(all@) =~= advice_for(
        validation_report.checks@,
        progress_report.completed_markers as nat,
        progress_report.total_markers as nat,
        prompts@.len(),
        templates@.len(),
        suggestion_type@,
    ));
    let brief = text_eq(verbosity, "brief");
    let mut out: Vec<Suggestion> = Vec::new();
    collect_urgency(&all, brief, 3, &mut out);
    collect_urgency(&all, brief, 2, &mut out);
    collect_urgency(&all, brief, 1, &mut out);
    collect_urgency(&all, brief, 0, &mut out);
    assert(shapes(out@) =~= ranked(shapes(all@), brief));
    out
}

/// The Markdown section of the suggestion numbered `n`.
pub open spec fn suggestion_section(n: nat, s: SuggestionShape) -> Seq<char> {
    "## Suggestion "@ + decimal(n) + ": "@ + s.2 + "\n\n**Category:** "@ + category_word(s.0)
        + "\n\n**Priority:** "@ + priority_word(s.1) + "\n\n**Description:** "@ + s.3
        + "\n\n**Recommended Actions:**\n"@ + bullets(s.4, "- "@) + "\n---\n\n"@
}

/// The Markdown document of the suggestions, numbered from one.
pub open spec fn suggestions_markdown(s: Seq<SuggestionShape>) -> Seq<char>
    decreases s.len(),
{
    if s.len() == 0 {
        Seq::empty()
    } else {
        suggestions_markdown(s.drop_last()) + suggestion_section(s.len() as nat, s.last())
    }
}

/// Renders the suggestions as a Markdown document, numbered from one.
pub fn serialize_suggestions_markdown(suggestions: &[Suggestion]) -> (r: String)
    ensures
        r@ == suggestions_markdown(shapes(suggestions@)),
{
    let mut r = String::new();
    let mut i: usize = 0;
    while i < suggestions.len()
        invariant
            i <= suggestions@.len(),
            r@ == suggestions_markdown(shapes(suggestions@.subrange(0, i as int))),
        decreases suggestions.len() - i,
    {
        let s = &suggestions[i];
        let ghost pre = shapes(suggestions@.subrange(0, i as int));
        let ghost before = r@;
        r.append("## Suggestion ");
        r.append(decimal_text(i + 1).as_str());
        r.append(": ");
        r.append(s.title.as_str());
        r.append("\n\n**Category:** ");
        r.append(s.category.name());
        r.append("\n\n**Priority:** ");
        r.append(s.priority.name());
        r.append("\n\n**Description:** ");
        r.append(s.description.as_str());
        r.append("\n\n**Recommended Actions:**\n");
        r.append(bullet_lines(&s.recommended_actions, "- ").as_str());
        r.append("\n---\n\n");
        i = i + 1;
        proof {
            let cur = shapes(suggestions@.subrange(0, i as int));
            assert(cur.drop_last() =~= pre);
            assert(cur.last() == shape(*s));
            assert(r@ =~= before + suggestion_section(i as nat, shape(*s)));
        }
    }
    assert(suggestions@.subrange(0, suggestions@.len() as int) =~= suggestions@);
    r
}
} // verus!
