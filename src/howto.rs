//! How-to guides on the tool's topics, in terminal, Markdown or HTML form.

use vstd::prelude::*;
use crate::text::{join_texts, joined, text_eq, views};

verus! {

/// The form a guide is produced in.
#[derive(Clone, Copy, Debug, PartialEq, Eq, Structural)]
pub enum HowtoOutputFormat {
    Terminal,
    Markdown,
    Html,
}

/// Why no guide could be produced.
#[derive(Clone, Copy, Debug, PartialEq, Eq, Structural)]
pub enum HowtoError {
    /// The topic is none of those that `list_topics` names.
    UnknownTopic,
}

impl HowtoError {
    /// A sentence that describes the error.
    pub fn message(&self) -> &'static str {
        "Unknown howto topic"
    }
}

/// The topics that have a guide.
pub open spec fn topics() -> Seq<Seq<char>> {
    seq![
        "check"@,
        "feature-status"@,
        "dependency-management"@,
        "git-health"@,
        "logging"@,
        "cli-usage"@,
    ]
}

/// The detail line of the checks guide at a verbosity.
pub open spec fn checks_detail(verbosity: Seq<char>) -> Seq<char> {
    if verbosity == "high"@ {
        "Comprehensive project check documentation with advanced details."@
    } else if verbosity == "low"@ {
        "Basic overview of project check."@
    } else {
        "Detailed project check documentation."@
    }
}

/// The guide to project checks.
pub open spec fn checks_doc(verbosity: Seq<char>) -> Seq<char> {
    "# Check Documentation\n\n"@ + checks_detail(verbosity)
        + "\n\n## Supported Check\n- Code Formatting\n- Linting\n- Unit Testing\n\n## Usage Example\n```bash\nfargin check\n```\n"@
}

/// The overview that lists the topics.
pub open spec fn overview_doc() -> Seq<char> {
    "# Fargin CLI Documentation\n\nComprehensive guide to using the Fargin CLI tool.\n\n## Available Topics\n"@
        + joined(topics(), "\n"@) + "\nUse `fargin howto <topic>` for detailed information.\n"@
}

/// The guide to a named topic, if it has one.
pub open spec fn topic_doc(topic: Seq<char>, verbosity: Seq<char>) -> Option<Seq<char>> {
    if topic == "check"@ {
        Some(checks_doc(verbosity))
    } else if topic == "feature-status"@ {
        Some(
            "# Feature Status Documentation\n\nTrack and manage project features effectively.\n\n## Feature Statuses\n- Proposed\n- In Progress\n- Implemented\n- Blocked"@,
        )
    } else if topic == "dependency-management"@ {
        Some(
            "# Dependency Management\n\nMonitor and manage project dependencies.\n\n## Key Metrics\n- Version compatibility\n- Security checks\n- Update recommendations"@,
        )
    } else if topic == "git-health"@ {
        Some(
            "# Git Repository Health\n\nTrack repository development workflow.\n\n## Monitored Aspects\n. Commit frequency\n. Branch management\n. Merge conflict potential"@,
        )
    } else if topic == "logging"@ {
        Some(
            "# Logging and Observability\n\nConfigure and use logging effectively.\n\n## Log Levels\n- `ERROR`: Critical issues\n- `WARN`: Potential problems\n- `INFO`: Important events\n- `DEBUG`: Diagnostic information"@,
        )
    } else if topic == "cli-usage"@ {
        Some(
            "# CLI Usage Guide\n\nComprehensive guide to Fargin CLI commands.\n\n## Available Commands\n. `check`: Run project health check\n. `config`: Manage project configuration\n. `status`: Display project status"@,
        )
    } else {
        None
    }
}

/// The guide for an optional topic: the overview when there is none.
pub open spec fn doc_for(topic: Option<Seq<char>>, verbosity: Seq<char>) -> Option<Seq<char>> {
    match topic {
        Some(t) => topic_doc(t, verbosity),
        None => Some(overview_doc()),
    }
}

/// A guide in the given form; HTML wraps it in a preformatted block.
pub open spec fn formatted(doc: Seq<char>, format: HowtoOutputFormat) -> Seq<char> {
    match format {
        HowtoOutputFormat::Html => "<html><body><pre>"@ + doc + "</pre></body></html>"@,
        _ => doc,
    }
}

/// Produces how-to guides.
pub struct HowtoGenerator {
    topic: Option<String>,
    verbosity: String,
    output_format: HowtoOutputFormat,
    save_path: Option<String>,
}

impl HowtoGenerator {
    /// The topic asked for, if any.
    pub closed spec fn topic_spec(&self) -> Option<Seq<char>> {
        match self.topic {
            Some(t) => Some(t@),
            None => None,
        }
    }

    /// The verbosity asked for.
    pub closed spec fn verbosity_spec(&self) -> Seq<char> {
        self.verbosity@
    }

    /// The form asked for.
    pub closed spec fn format_spec(&self) -> HowtoOutputFormat {
        self.output_format
    }

    /// A generator for `topic` (the overview when none) at `verbosity`, in
    /// `output_format`; the guide is also to be saved at `save_path`, if given.
    pub fn new(
        topic: Option<String>,
        verbosity: String,
        output_format: HowtoOutputFormat,
        save_path: Option<String>,
    ) -> (r: HowtoGenerator)
        ensures
            r.topic_spec() == (match topic {
                Some(t) => Some(t@),
                None => None::<Seq<char>>,
            }),
            r.verbosity_spec() == verbosity@,
            r.format_spec() == output_format,
    {
        HowtoGenerator { topic, verbosity, output_format, save_path }
    }

    /// Where the guide is to be saved, if anywhere.
    pub fn save_path(&self) -> (r: Option<&str>) {
        match &self.save_path {
            Some(p) => Some(p.as_str()),
            None => None,
        }
    }

    /// The topics that have a guide.
    pub fn list_topics() -> (r: Vec<String>)
        ensures
            views(r@) == topics(),
    {
        let mut r: Vec<String> = Vec::new();
        r.push(String::from_str("check"));
        r.push(String::from_str("feature-status"));
        r.push(String::from_str("dependency-management"));
        r.push(String::from_str("git-health"));
        r.push(String::from_str("logging"));
        r.push(String::from_str("cli-usage"));
        assert(views(r@) =~= topics());
        r
    }

    fn generate_project_checks_doc(&self) -> (r: String)
        ensures
            r@ == checks_doc(self.verbosity@),
    {
        let detail = if text_eq(self.verbosity.as_str(), "high") {
            "Comprehensive project check documentation with advanced details."
        } else if text_eq(self.verbosity.as_str(), "low") {
            "Basic overview of project check."
        } else {
            "Detailed project check documentation."
        };
        let mut r = String::from_str("# Check Documentation\n\n");
        r.append(detail);
        r.append(
            "\n\n## Supported Check\n- Code Formatting\n- Linting\n- Unit Testing\n\n## Usage Example\n```bash\nfargin check\n```\n",
        );
        r
    }

    fn generate_overview_doc(&self) -> (r: String)
        ensures
            r@ == overview_doc(),
    {
        let mut r = String::from_str(
            "# Fargin CLI Documentation\n\nComprehensive guide to using the Fargin CLI tool.\n\n## Available Topics\n",
        );
        r.append(join_texts(&HowtoGenerator::list_topics(), "\n").as_str());
        r.append("\nUse `fargin howto <topic>` for detailed information.\n");
        r
    }

    fn to_markdown(&self, doc: String) -> (r: String)
        ensures
            r@ == doc@,
    {
        doc
    }

    fn to_html(&self, doc: &str) -> (r: String)
        ensures
            r@ == "<html><body><pre>"@ + doc@ + "</pre></body></html>"@,
    {
        let mut r = String::from_str("<html><body><pre>");
        r.append(doc);
        r.append("</pre></body></html>");
        r
    }

    /// The guide asked for, in the form asked for; an unknown topic is refused.
    pub fn generate(&self) -> (r: Result<String, HowtoError>)
        ensures
            r is Ok <==> doc_for(self.topic_spec(), self.verbosity_spec()) is Some,
            r matches Ok(s) ==> s@ == formatted(
                doc_for(self.topic_spec(), self.verbosity_spec())->Some_0,
                self.format_spec(),
            ),
            r matches Err(e) ==> e == HowtoError::UnknownTopic,
    {
        let doc = match &self.topic {
            None => self.generate_overview_doc(),
            Some(t) => {
                let t = t.as_str();
                if text_eq(t, "check") {
                    self.generate_project_checks_doc()
                } else if text_eq(t, "feature-status") {
                    String::from_str(
                        "# Feature Status Documentation\n\nTrack and manage project features effectively.\n\n## Feature Statuses\n- Proposed\n- In Progress\n- Implemented\n- Blocked",
                    )
                } else if text_eq(t, "dependency-management") {
                    String::from_str(
                        "# Dependency Management\n\nMonitor and manage project dependencies.\n\n## Key Metrics\n- Version compatibility\n- Security checks\n- Update recommendations",
                    )
                } else if text_eq(t, "git-health") {
                    String::from_str(
                        "# Git Repository Health\n\nTrack repository development workflow.\n\n## Monitored Aspects\n. Commit frequency\n. Branch management\n. Merge conflict potential",
                    )
                } else if text_eq(t, "logging") {
                    String::from_str(
                        "# Logging and Observability\n\nConfigure and use logging effectively.\n\n## Log Levels\n- `ERROR`: Critical issues\n- `WARN`: Potential problems\n- `INFO`: Important events\n- `DEBUG`: Diagnostic information",
                    )
                } else if text_eq(t, "cli-usage") {
                    String::from_str(
                        "# CLI Usage Guide\n\nComprehensive guide to Fargin CLI commands.\n\n## Available Commands\n. `check`: Run project health check\n. `config`: Manage project configuration\n. `status`: Display project status",
                    )
                } else {
                    return Err(HowtoError::UnknownTopic);
                }
            },
        };
        match self.output_format {
            HowtoOutputFormat::Terminal => Ok(doc),
            HowtoOutputFormat::Markdown => Ok(self.to_markdown(doc)),
            HowtoOutputFormat::Html => Ok(self.to_html(doc.as_str())),
        }
    }
}

} // verus!
