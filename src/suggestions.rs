//! Next-step suggestions drawn from the project configuration alone, and the
//! text they are shown as.

use vstd::prelude::*;
use crate::config::ProjectConfig;
use crate::progress::{completed_count, count_completed};
use crate::text::{decimal, decimal_text};

verus! {

/// A suggested next step.
#[derive(Debug)]
pub struct Suggestion {
    pub category: SuggestionCategory,
    pub priority: SuggestionPriority,
    pub description: String,
    pub details: Option<String>,
}

/// What a next step is about.
#[derive(Clone, Copy, Debug, PartialEq, Eq, Structural)]
pub enum SuggestionCategory {
    Planning,
    Progress,
    Quality,
    Documentation,
}

/// How urgent a next step is.
#[derive(Clone, Copy, Debug, PartialEq, Eq, Structural)]
pub enum SuggestionPriority {
    Low,
    Medium,
    High,
}

/// The name of a priority.
pub open spec fn priority_label(p: SuggestionPriority) -> Seq<char> {
    match p {
        SuggestionPriority::Low => "Low"@,
        SuggestionPriority::Medium => "Medium"@,
        SuggestionPriority::High => "High"@,
    }
}

impl SuggestionPriority {
    /// The name of the priority.
    pub fn name(&self) -> (r: &'static str)
        ensures
            r@ == priority_label(*self),
    {
        match self {
            SuggestionPriority::Low => "Low",
            SuggestionPriority::Medium => "Medium",
            SuggestionPriority::High => "High",
        }
    }
}

/// What a next step says, field by field.
pub type StepShape = (SuggestionCategory, SuggestionPriority, Seq<char>, Option<Seq<char>>);

/// What `s` says.
pub open spec fn step_shape(s: Suggestion) -> StepShape {
    (
        s.category,
        s.priority,
        s.description@,
        match s.details {
            Some(d) => Some(d@),
            None => None,
        },
    )
}

/// The next steps for a configuration: finish the open markers, if any, and
/// define goals, if there are none.
pub open spec fn next_steps(config: ProjectConfig) -> Seq<StepShape> {
    let open = config.progress_markers@.len() - completed_count(config.progress_markers@);
    (if open > 0 {
        seq![
            (
                SuggestionCategory::Progress,
                SuggestionPriority::High,
                "Complete "@ + decimal(open as nat) + " remaining progress markers"@,
                Some("Focus on completing existing progress markers before adding new ones"@),
            ),
        ]
    } else {
        Seq::empty()
    }) + if config.goals@.len() == 0 {
        seq![
            (
                SuggestionCategory::Planning,
                SuggestionPriority::High,
                "Define project goals"@,
                Some("Add clear, measurable goals to guide project development"@),
            ),
        ]
    } else {
        Seq::empty()
    }
}

/// The next steps for the project that `config` describes.
pub fn generate_suggestions(config: &ProjectConfig) -> (r: Vec<Suggestion>)
    ensures
        r@.map_values(|s: Suggestion| step_shape(s)) == next_steps(*config),
{
    let completed = count_completed(&config.progress_markers);
    let open = config.progress_markers.len() - completed;
    let mut r: Vec<Suggestion> = Vec::new();
    if open > 0 {
        let mut d = String::from_str("Complete ");
        d.append(decimal_text(open).as_str());
        d.append(" remaining progress markers");
        r.push(
            Suggestion {
                category: SuggestionCategory::Progress,
                priority: SuggestionPriority::High,
                description: d,
                details: Some(
                    String::from_str(
                        "Focus on completing existing progress markers before adding new ones",
                    ),
                ),
            },
        );
    }
    if config.goals.len() == 0 {
        r.push(
            Suggestion {
                category: SuggestionCategory::Planning,
                priority: SuggestionPriority::High,
                description: String::from_str("Define project goals"),
                details: Some(
                    String::from_str("Add clear, measurable goals to guide project development"),
                ),
            },
        );
    }
    assert(r@.map_values(|s: Suggestion| step_shape(s)) =~= next_steps(*config));
    r
}

/// The lines of the step numbered `n`: number, priority and description,
/// then the details, indented, if there are any.
pub open spec fn step_line(n: nat, s: StepShape) -> Seq<char> {
    decimal(n) + ". ["@ + priority_label(s.1) + "] "@ + s.2 + "\n"@ + match s.3 {
        Some(d) => "   "@ + d + "\n"@,
        None => Seq::empty(),
    }
}

/// The lines of the steps, numbered from one.
pub open spec fn step_lines(s: Seq<StepShape>) -> Seq<char>
    decreases s.len(),
{
    if s.len() == 0 {
        Seq::empty()
    } else {
        step_lines(s.drop_last()) + step_line(s.len() as nat, s.last())
    }
}

fn step_line_text(n: usize, s: &Suggestion) -> (r: String)
    ensures
        r@ == step_line(n as nat, step_shape(*s)),
{
    let mut r = decimal_text(n);
    r.append(". [");
    r.append(s.priority.name());
    r.append("] ");
    r.append(s.description.as_str());
    r.append("\n");
    if let Some(d) = &s.details {
        r.append("   ");
        r.append(d.as_str());
        r.append("\n");
    }
    r
}

/// The text the next steps are shown as.
pub open spec fn steps_text(s: Seq<StepShape>) -> Seq<char> {
    if s.len() == 0 {
        "No suggestions at this time. Project is progressing well!\n"@
    } else {
        "\nSuggested Next Steps:\n"@ + step_lines(s)
    }
}

/// Renders the next steps as they are shown to the user.
pub fn render_suggestions(suggestions: &Vec<Suggestion>) -> (r: String)
    ensures
        r@ == steps_text(suggestions@.map_values(|s: Suggestion| step_shape(s))),
{
    if suggestions.len() == 0 {
        return String::from_str("No suggestions at this time. Project is progressing well!\n");
    }
    let ghost all = suggestions@.map_values(|s: Suggestion| step_shape(s));
    let mut r = String::from_str("\nSuggested Next Steps:\n");
    let mut i: usize = 0;
    while i < suggestions.len()
        invariant
            i <= suggestions@.len(),
            all == suggestions@.map_values(|s: Suggestion| step_shape(s)),
            r@ == "\nSuggested Next Steps:\n"@ + step_lines(all.subrange(0, i as int)),
        decreases suggestions.len() - i,
    {
        let s = &suggestions[i];
        r.append(step_line_text(i + 1, s).as_str());
        i = i + 1;
        proof {
            let cur = all.subrange(0, i as int);
            assert(cur.drop_last() =~= all.subrange(0, i - 1));
            assert(cur.last() == step_shape(*s));
            assert(r@ =~= "\nSuggested Next Steps:\n"@ + step_lines(cur));
        }
    }
    assert(all.subrange(0, all.len() as int) =~= all);
    r
}

} // verus!
