//! Project health: feature status tally, recommended directories, dependency
//! and version-control facets, and the textual summaries built from them.

use vstd::prelude::*;
use crate::features::{status_name, text_or, FeatureStatus};
use crate::text::{
    bool_text, bool_word, contains_text, decimal, decimal_text, join_texts, joined, list_has,
    occurs_in, text_eq, views,
};

verus! {

/// A Markdown file found among the saved features.
pub struct FeatureFileInfo {
    /// The file's name, extension included.
    pub file_name: String,
    /// The file's text.
    pub content: String,
    /// Seconds since the file was last modified, when the file system tells.
    pub age_secs: Option<u64>,
}

/// What the checks need to know of a project on disk, gathered by the caller.
pub struct ProjectScan {
    /// Paths, relative to the project root, that exist (as `.fargin/features`).
    pub existing_paths: Vec<String>,
    /// The Markdown files of `.fargin/features` (none when it is absent).
    pub feature_files: Vec<FeatureFileInfo>,
}

impl ProjectScan {
    /// The path `p` exists in the scanned project.
    pub open spec fn has_path(&self, p: Seq<char>) -> bool {
        views(self.existing_paths@).contains(p)
    }
}

/// How many features stand at each status.
#[derive(Clone, Copy, Debug, PartialEq, Eq, Structural, Default)]
pub struct StatusDistribution {
    pub proposed: usize,
    pub in_progress: usize,
    pub implemented: usize,
    pub blocked: usize,
    pub deprecated: usize,
}

impl StatusDistribution {
    /// The count kept for status `s`.
    pub open spec fn count(self, s: FeatureStatus) -> nat {
        match s {
            FeatureStatus::Proposed => self.proposed as nat,
            FeatureStatus::InProgress => self.in_progress as nat,
            FeatureStatus::Implemented => self.implemented as nat,
            FeatureStatus::Blocked => self.blocked as nat,
            FeatureStatus::Deprecated => self.deprecated as nat,
        }
    }

    /// No status has a feature.
    pub open spec fn empty_spec(self) -> bool {
        self.proposed == 0 && self.in_progress == 0 && self.implemented == 0 && self.blocked == 0
            && self.deprecated == 0
    }

    /// The number of features at status `s`.
    pub fn get(&self, s: FeatureStatus) -> (r: usize)
        ensures
            r == self.count(s),
    {
        match s {
            FeatureStatus::Proposed => self.proposed,
            FeatureStatus::InProgress => self.in_progress,
            FeatureStatus::Implemented => self.implemented,
            FeatureStatus::Blocked => self.blocked,
            FeatureStatus::Deprecated => self.deprecated,
        }
    }

    /// Whether no status has a feature.
    pub fn is_empty(&self) -> (r: bool)
        ensures
            r == self.empty_spec(),
    {
        self.proposed == 0 && self.in_progress == 0 && self.implemented == 0 && self.blocked == 0
            && self.deprecated == 0
    }
}

/// Feature status tally and the features untouched for more than thirty days.
#[derive(Default)]
pub struct FeatureHealthReport {
    pub total_features: usize,
    pub status_distribution: StatusDistribution,
    pub stale_features: Vec<String>,
}

/// Which recommended directories exist and which are missing.
#[derive(Default)]
pub struct FileStructureReport {
    pub existing_dirs: Vec<String>,
    pub missing_dirs: Vec<String>,
}

/// Dependency facet; not analysed yet, so always empty.
#[derive(Default)]
pub struct DependencyHealthReport {
    pub total_dependencies: usize,
    pub outdated_dependencies: Vec<String>,
}

/// Version-control facet; only the presence of a repository is examined.
#[derive(Default)]
pub struct GitHealthReport {
    pub is_git_repo: bool,
    pub uncommitted_changes: bool,
    pub unpushed_commits: bool,
    pub branch_name: Option<String>,
}

/// The four facets of project health together.
#[derive(Default)]
pub struct ProjectHealthReport {
    pub feature_health: FeatureHealthReport,
    pub file_structure: FileStructureReport,
    pub dependency_health: DependencyHealthReport,
    pub git_health: GitHealthReport,
}

/// The status a saved feature is counted under, judged from markers in its text.
///
/// Note: these markers (`Status: Implemented`) do not occur in the Markdown a
/// feature is saved as, which writes `**Status**: Implemented`; saved features
/// are therefore counted as proposed. The markers are kept as they are, and
/// the mismatch is left open rather than silently resolved either way.
pub open spec fn classify(content: Seq<char>) -> FeatureStatus {
    if occurs_in(content, "Status: Implemented"@) {
        FeatureStatus::Implemented
    } else if occurs_in(content, "Status: InProgress"@) {
        FeatureStatus::InProgress
    } else if occurs_in(content, "Status: Blocked"@) {
        FeatureStatus::Blocked
    } else {
        FeatureStatus::Proposed
    }
}

/// How many of `files` are counted under status `s`.
pub open spec fn count_status(files: Seq<FeatureFileInfo>, s: FeatureStatus) -> nat
    decreases files.len(),
{
    if files.len() == 0 {
        0
    } else {
        count_status(files.drop_last(), s) + if classify(files.last().content@) == s {
            1nat
        } else {
            0nat
        }
    }
}

/// Seconds in a day.
pub const SECS_PER_DAY: u64 = 86400;

/// Days without change after which a feature is stale.
pub const STALE_AFTER_DAYS: u64 = 30;

/// The file has not changed for more than thirty whole days.
pub open spec fn is_stale(f: FeatureFileInfo) -> bool {
    f.age_secs matches Some(a) && a / SECS_PER_DAY > STALE_AFTER_DAYS
}

/// The names of the stale files among `files`, in order.
pub open spec fn stale_names(files: Seq<FeatureFileInfo>) -> Seq<Seq<char>>
    decreases files.len(),
{
    if files.len() == 0 {
        Seq::empty()
    } else {
        stale_names(files.drop_last()) + if is_stale(files.last()) {
            seq![files.last().file_name@]
        } else {
            Seq::empty()
        }
    }
}

/// The directories a healthy project has, in the order they are reported.
pub open spec fn recommended_dirs() -> Seq<Seq<char>> {
    seq![
        ".fargin"@,
        ".fargin/features"@,
        ".fargin/docs"@,
        ".fargin/templates"@,
        ".fargin/artifacts"@,
        "src"@,
        "tests"@,
        "docs"@,
    ]
}

/// Number of recommended directories.
pub const RECOMMENDED_DIR_COUNT: usize = 8;

/// The directories of `dirs` whose presence in `scan` is `present`, in order.
pub open spec fn dirs_where(dirs: Seq<Seq<char>>, scan: ProjectScan, present: bool) -> Seq<Seq<char>>
    decreases dirs.len(),
{
    if dirs.len() == 0 {
        Seq::empty()
    } else {
        dirs_where(dirs.drop_last(), scan, present) + if scan.has_path(dirs.last()) == present {
            seq![dirs.last()]
        } else {
            Seq::empty()
        }
    }
}

/// `r` reports the health of the scanned project.
pub open spec fn is_health_of(r: ProjectHealthReport, scan: ProjectScan) -> bool {
    &&& r.feature_health.total_features == scan.feature_files@.len()
    &&& forall|s: FeatureStatus| #[trigger]
        r.feature_health.status_distribution.count(s) == count_status(scan.feature_files@, s)
    &&& views(r.feature_health.stale_features@) == stale_names(scan.feature_files@)
    &&& views(r.file_structure.existing_dirs@) == dirs_where(recommended_dirs(), scan, true)
    &&& views(r.file_structure.missing_dirs@) == dirs_where(recommended_dirs(), scan, false)
    &&& r.dependency_health.total_dependencies == 0
    &&& r.dependency_health.outdated_dependencies@.len() == 0
    &&& r.git_health.is_git_repo == scan.has_path(".git"@)
    &&& !r.git_health.uncommitted_changes
    &&& !r.git_health.unpushed_commits
    &&& r.git_health.is_git_repo ==> (r.git_health.branch_name matches Some(b) && b@ == "main"@)
    &&& !r.git_health.is_git_repo ==> r.git_health.branch_name is None
}

fn recommended_dir(i: usize) -> (r: &'static str)
    requires
        i < RECOMMENDED_DIR_COUNT,
    ensures
        r@ == recommended_dirs()[i as int],
{
    if i == 0 {
        ".fargin"
    } else if i == 1 {
        ".fargin/features"
    } else if i == 2 {
        ".fargin/docs"
    } else if i == 3 {
        ".fargin/templates"
    } else if i == 4 {
        ".fargin/artifacts"
    } else if i == 5 {
        "src"
    } else if i == 6 {
        "tests"
    } else {
        "docs"
    }
}

/// The status under which a saved feature's text is counted.
pub fn classify_content(content: &str) -> (r: FeatureStatus)
    ensures
        r == classify(content@),
{
    if contains_text(content, "Status: Implemented") {
        FeatureStatus::Implemented
    } else if contains_text(content, "Status: InProgress") {
        FeatureStatus::InProgress
    } else if contains_text(content, "Status: Blocked") {
        FeatureStatus::Blocked
    } else {
        FeatureStatus::Proposed
    }
}

/// Inspects a project's health.
pub struct ProjectChecker {
    project_root: String,
}

impl ProjectChecker {
    /// A checker for the project at `project_root`.
    pub fn new(project_root: &str) -> (r: ProjectChecker)
        ensures
            r.root() == project_root@,
    {
        ProjectChecker { project_root: String::from_str(project_root) }
    }

    /// The project directory being checked.
    pub closed spec fn root(&self) -> Seq<char> {
        self.project_root@
    }

    /// The project directory being checked.
    pub fn project_root(&self) -> (r: &str)
        ensures
            r@ == self.root(),
    {
        self.project_root.as_str()
    }

    /// Tallies the saved features by the status markers in their text and
    /// lists those unchanged for more than thirty days.
    pub fn check_feature_health(&self, files: &Vec<FeatureFileInfo>) -> (r: FeatureHealthReport)
        ensures
            r.total_features == files@.len(),
            forall|s: FeatureStatus| #[trigger]
                r.status_distribution.count(s) == count_status(files@, s),
            views(r.stale_features@) == stale_names(files@),
    {
        let mut dist = StatusDistribution {
            proposed: 0,
            in_progress: 0,
            implemented: 0,
            blocked: 0,
            deprecated: 0,
        };
        let mut stale: Vec<String> = Vec::new();
        let mut i: usize = 0;
        while i < files.len()
            invariant
                i <= files@.len(),
                forall|s: FeatureStatus| #[trigger]
                    dist.count(s) == count_status(files@.subrange(0, i as int), s),
                dist.proposed <= i && dist.in_progress <= i && dist.implemented <= i && dist.blocked
                    <= i && dist.deprecated <= i,
                views(stale@) == stale_names(files@.subrange(0, i as int)),
            decreases files.len() - i,
        {
            let f = &files[i];
            let ghost dist0 = dist;
            let st = classify_content(f.content.as_str());
            match st {
                FeatureStatus::Proposed => dist.proposed = dist.proposed + 1,
                FeatureStatus::InProgress => dist.in_progress = dist.in_progress + 1,
                FeatureStatus::Implemented => dist.implemented = dist.implemented + 1,
                FeatureStatus::Blocked => dist.blocked = dist.blocked + 1,
                FeatureStatus::Deprecated => dist.deprecated = dist.deprecated + 1,
            }
            let ghost pre = files@.subrange(0, i as int);
            let old_enough = match f.age_secs {
                Some(a) => a / SECS_PER_DAY > STALE_AFTER_DAYS,
                None => false,
            };
            if old_enough {
                stale.push(f.file_name.clone());
            }
            i = i + 1;
            proof {
                let cur = files@.subrange(0, i as int);
                assert(cur.drop_last() =~= pre);
                assert(cur.last() == *f);
                assert(views(stale@) =~= stale_names(cur));
                assert forall|s: FeatureStatus| #[trigger]
                    dist.count(s) == count_status(cur, s) by {
                    assert(dist0.count(s) == count_status(pre, s));
                }
            }
        }
        assert(files@.subrange(0, files@.len() as int) =~= files@);
        FeatureHealthReport {
            total_features: files.len(),
            status_distribution: dist,
            stale_features: stale,
        }
    }

    /// Partitions the recommended directories into those that exist and those
    /// that are missing, each in the recommended order.
    pub fn check_file_structure(&self, scan: &ProjectScan) -> (r: FileStructureReport)
        ensures
            views(r.existing_dirs@) == dirs_where(recommended_dirs(), *scan, true),
            views(r.missing_dirs@) == dirs_where(recommended_dirs(), *scan, false),
    {
        let mut existing: Vec<String> = Vec::new();
        let mut missing: Vec<String> = Vec::new();
        let mut i: usize = 0;
        while i < RECOMMENDED_DIR_COUNT
            invariant
                i <= RECOMMENDED_DIR_COUNT,
                views(existing@) == dirs_where(recommended_dirs().subrange(0, i as int), *scan, true),
                views(missing@) == dirs_where(recommended_dirs().subrange(0, i as int), *scan, false),
            decreases RECOMMENDED_DIR_COUNT - i,
        {
            let dir = recommended_dir(i);
            let ghost pre = recommended_dirs().subrange(0, i as int);
            let present = list_has(&scan.existing_paths, dir);
            if present {
                existing.push(String::from_str(dir));
            } else {
                missing.push(String::from_str(dir));
            }
            i = i + 1;
            proof {
                let cur = recommended_dirs().subrange(0, i as int);
                assert(cur.drop_last() =~= pre);
                assert(cur.last() == dir@);
                assert(views(existing@) =~= dirs_where(cur, *scan, true));
                assert(views(missing@) =~= dirs_where(cur, *scan, false));
            }
        }
        assert(recommended_dirs().subrange(0, 8) =~= recommended_dirs());
        FileStructureReport { existing_dirs: existing, missing_dirs: missing }
    }

    /// The dependency facet: not analysed, so no dependencies and none outdated,
    /// whatever the manifest holds.
    pub fn check_dependencies(&self, scan: &ProjectScan) -> (r: DependencyHealthReport)
        ensures
            r.total_dependencies == 0,
            r.outdated_dependencies@.len() == 0,
    {
        DependencyHealthReport { total_dependencies: 0, outdated_dependencies: Vec::new() }
    }

    /// The version-control facet: a repository is reported (as healthy, on
    /// `main`) exactly when `.git` exists; its state is not examined.
    pub fn check_git_status(&self, scan: &ProjectScan) -> (r: GitHealthReport)
        ensures
            r.is_git_repo == scan.has_path(".git"@),
            !r.uncommitted_changes,
            !r.unpushed_commits,
            r.is_git_repo ==> (r.branch_name matches Some(b) && b@ == "main"@),
            !r.is_git_repo ==> r.branch_name is None,
    {
        if list_has(&scan.existing_paths, ".git") {
            GitHealthReport {
                is_git_repo: true,
                uncommitted_changes: false,
                unpushed_commits: false,
                branch_name: Some(String::from_str("main")),
            }
        } else {
            GitHealthReport {
                is_git_repo: false,
                uncommitted_changes: false,
                unpushed_commits: false,
                branch_name: None,
            }
        }
    }

    /// All four facets of the scanned project.
    pub fn run_all_checks(&self, scan: &ProjectScan) -> (r: ProjectHealthReport)
        ensures
            is_health_of(r, *scan),
    {
        ProjectHealthReport {
            feature_health: self.check_feature_health(&scan.feature_files),
            file_structure: self.check_file_structure(scan),
            dependency_health: self.check_dependencies(scan),
            git_health: self.check_git_status(scan),
        }
    }
}


/// Each item on a line of its own after `indent`.
pub open spec fn bullets(items: Seq<Seq<char>>, indent: Seq<char>) -> Seq<char>
    decreases items.len(),
{
    if items.len() == 0 {
        Seq::empty()
    } else {
        bullets(items.drop_last(), indent) + indent + items.last() + "\n"@
    }
}

/// The line for status `s` with `n` features (none when `n` is zero).
pub open spec fn dist_line(indent: Seq<char>, s: FeatureStatus, n: nat) -> Seq<char> {
    if n == 0 {
        Seq::empty()
    } else {
        indent + status_name(s) + ": "@ + decimal(n) + "\n"@
    }
}

/// One line per status that has features, in the order of the statuses.
pub open spec fn dist_lines(d: StatusDistribution, indent: Seq<char>) -> Seq<char> {
    dist_line(indent, FeatureStatus::Proposed, d.proposed as nat) + dist_line(
        indent,
        FeatureStatus::InProgress,
        d.in_progress as nat,
    ) + dist_line(indent, FeatureStatus::Implemented, d.implemented as nat) + dist_line(
        indent,
        FeatureStatus::Blocked,
        d.blocked as nat,
    ) + dist_line(indent, FeatureStatus::Deprecated, d.deprecated as nat)
}

/// The short progress summary.
pub open spec fn brief_summary(r: ProjectHealthReport) -> Seq<char> {
    "Project Progress Summary:\n- Features: "@ + decimal(r.feature_health.total_features as nat)
        + " total ("@ + decimal(r.feature_health.status_distribution.implemented as nat)
        + " implemented)\n- Dependencies: "@ + decimal(r.dependency_health.total_dependencies as nat)
        + " total\n- Git Status: "@ + (if r.git_health.is_git_repo {
        "✅ Healthy"@
    } else {
        "❌ Not a Git Repo"@
    }) + "\n"@
}

/// The standard progress summary.
pub open spec fn standard_summary(r: ProjectHealthReport) -> Seq<char> {
    "🚀 Project Progress Summary 🚀\n\nFeature Health:\nTotal Features: "@ + decimal(
        r.feature_health.total_features as nat,
    ) + "\nFeature Status Distribution:\n"@ + dist_lines(r.feature_health.status_distribution, "  - "@)
        + "Stale Features: "@ + joined(views(r.feature_health.stale_features@), ", "@)
        + "\n\nDependency Health:\nTotal Dependencies: "@ + decimal(
        r.dependency_health.total_dependencies as nat,
    ) + "\nOutdated Dependencies: "@ + decimal(r.dependency_health.outdated_dependencies@.len())
        + "\n\nGit Repository Health:\nIs Git Repository: "@ + bool_word(r.git_health.is_git_repo)
        + "\nCurrent Branch: "@ + text_or(r.git_health.branch_name, "Unknown"@)
        + "\nUncommitted Changes: "@ + bool_word(r.git_health.uncommitted_changes)
        + "\nUnpushed Commits: "@ + bool_word(r.git_health.unpushed_commits) + "\n"@
}

/// The detailed progress summary, with suggested actions.
pub open spec fn detailed_summary(r: ProjectHealthReport) -> Seq<char> {
    "🌟 Comprehensive Project Progress Summary 🌟\n\n🔍 Feature Health:\nTotal Features: "@ + decimal(
        r.feature_health.total_features as nat,
    ) + "\nFeature Status Distribution:\n"@ + dist_lines(r.feature_health.status_distribution, "  - "@)
        + "Stale Features (>30 days):\n"@ + bullets(views(r.feature_health.stale_features@), "  - "@)
        + "\nPotential Actions:\n- Review and update stale features\n- Close or reactivate inactive features\n\n📦 Dependency Health:\nTotal Dependencies: "@
        + decimal(r.dependency_health.total_dependencies as nat) + "\nOutdated Dependencies:\n"@
        + bullets(views(r.dependency_health.outdated_dependencies@), "  - "@)
        + "Potential Actions:\n- Update dependencies to latest versions\n- Review security and compatibility\n\n🌳 Git Repository Health:\nIs Git Repository: "@
        + bool_word(r.git_health.is_git_repo) + "\nCurrent Branch: "@ + text_or(
        r.git_health.branch_name,
        "Unknown"@,
    ) + "\nUncommitted Changes: "@ + bool_word(r.git_health.uncommitted_changes)
        + "\nUnpushed Commits: "@ + bool_word(r.git_health.unpushed_commits)
        + "\nPotential Actions:\n- Commit or stash uncommitted changes\n- Push local commits to remote\n- Consider creating feature branches\n\n💡 Recommendations:\n1. Prioritize features with 'Blocked' or 'InProgress' status\n2. Address stale features and outdated dependencies\n3. Maintain consistent Git workflow\n"@
}

/// The summary that a verbosity asks for: `high` detailed, `low` brief,
/// anything else standard.
pub open spec fn summary_for(r: ProjectHealthReport, verbosity: Seq<char>) -> Seq<char> {
    if verbosity == "high"@ {
        detailed_summary(r)
    } else if verbosity == "low"@ {
        brief_summary(r)
    } else {
        standard_summary(r)
    }
}

/// Writes each item on a line of its own after `indent`.
pub fn bullet_lines(items: &Vec<String>, indent: &str) -> (r: String)
    ensures
        r@ == bullets(views(items@), indent@),
{
    let mut r = String::new();
    let mut i: usize = 0;
    while i < items.len()
        invariant
            i <= items@.len(),
            r@ == bullets(views(items@.subrange(0, i as int)), indent@),
        decreases items.len() - i,
    {
        let ghost pre = views(items@.subrange(0, i as int));
        r.append(indent);
        r.append(items[i].as_str());
        r.append("\n");
        i = i + 1;
        proof {
            let cur = views(items@.subrange(0, i as int));
            assert(cur.drop_last() =~= pre);
            assert(cur.last() == items@[i - 1]@);
            assert(r@ =~= bullets(cur, indent@));
        }
    }
    assert(items@.subrange(0, items@.len() as int) =~= items@);
    r
}

fn dist_line_text(indent: &str, s: FeatureStatus, n: usize) -> (r: String)
    ensures
        r@ == dist_line(indent@, s, n as nat),
{
    let mut r = String::new();
    if n > 0 {
        r.append(indent);
        r.append(s.name());
        r.append(": ");
        r.append(decimal_text(n).as_str());
        r.append("\n");
    }
    r
}

/// Writes one line per status that has features.
pub fn dist_text(d: &StatusDistribution, indent: &str) -> (r: String)
    ensures
        r@ == dist_lines(*d, indent@),
{
    let mut r = dist_line_text(indent, FeatureStatus::Proposed, d.proposed);
    r.append(dist_line_text(indent, FeatureStatus::InProgress, d.in_progress).as_str());
    r.append(dist_line_text(indent, FeatureStatus::Implemented, d.implemented).as_str());
    r.append(dist_line_text(indent, FeatureStatus::Blocked, d.blocked).as_str());
    r.append(dist_line_text(indent, FeatureStatus::Deprecated, d.deprecated).as_str());
    r
}

fn branch_text(b: &Option<String>) -> (r: String)
    ensures
        r@ == text_or(*b, "Unknown"@),
{
    match b {
        Some(s) => s.clone(),
        None => String::from_str("Unknown"),
    }
}

impl ProjectChecker {
    /// The short progress summary of a report.
    pub fn generate_brief_progress_summary(&self, report: &ProjectHealthReport) -> (r: String)
        ensures
            r@ == brief_summary(*report),
    {
        let mut r = String::from_str("Project Progress Summary:\n- Features: ");
        r.append(decimal_text(report.feature_health.total_features).as_str());
        r.append(" total (");
        r.append(
            decimal_text(report.feature_health.status_distribution.get(FeatureStatus::Implemented)).as_str(),
        );
        r.append(" implemented)\n- Dependencies: ");
        r.append(decimal_text(report.dependency_health.total_dependencies).as_str());
        r.append(" total\n- Git Status: ");
        if report.git_health.is_git_repo {
            r.append("✅ Healthy");
        } else {
            r.append("❌ Not a Git Repo");
        }
        r.append("\n");
        r
    }

    /// The standard progress summary of a report.
    pub fn generate_standard_progress_summary(&self, report: &ProjectHealthReport) -> (r: String)
        ensures
            r@ == standard_summary(*report),
    {
        let mut r = String::from_str(
            "🚀 Project Progress Summary 🚀\n\nFeature Health:\nTotal Features: ",
        );
        r.append(decimal_text(report.feature_health.total_features).as_str());
        r.append("\nFeature Status Distribution:\n");
        r.append(dist_text(&report.feature_health.status_distribution, "  - ").as_str());
        r.append("Stale Features: ");
        r.append(join_texts(&report.feature_health.stale_features, ", ").as_str());
        r.append("\n\nDependency Health:\nTotal Dependencies: ");
        r.append(decimal_text(report.dependency_health.total_dependencies).as_str());
        r.append("\nOutdated Dependencies: ");
        r.append(decimal_text(report.dependency_health.outdated_dependencies.len()).as_str());
        r.append("\n\nGit Repository Health:\nIs Git Repository: ");
        r.append(bool_text(report.git_health.is_git_repo));
        r.append("\nCurrent Branch: ");
        r.append(branch_text(&report.git_health.branch_name).as_str());
        r.append("\nUncommitted Changes: ");
        r.append(bool_text(report.git_health.uncommitted_changes));
        r.append("\nUnpushed Commits: ");
        r.append(bool_text(report.git_health.unpushed_commits));
        r.append("\n");
        r
    }

    /// The detailed progress summary of a report.
    pub fn generate_detailed_progress_summary(&self, report: &ProjectHealthReport) -> (r: String)
        ensures
            r@ == detailed_summary(*report),
    {
        let mut r = String::from_str(
            "🌟 Comprehensive Project Progress Summary 🌟\n\n🔍 Feature Health:\nTotal Features: ",
        );
        r.append(decimal_text(report.feature_health.total_features).as_str());
        r.append("\nFeature Status Distribution:\n");
        r.append(dist_text(&report.feature_health.status_distribution, "  - ").as_str());
        r.append("Stale Features (>30 days):\n");
        r.append(bullet_lines(&report.feature_health.stale_features, "  - ").as_str());
        r.append(
            "\nPotential Actions:\n- Review and update stale features\n- Close or reactivate inactive features\n\n📦 Dependency Health:\nTotal Dependencies: ",
        );
        r.append(decimal_text(report.dependency_health.total_dependencies).as_str());
        r.append("\nOutdated Dependencies:\n");
        r.append(bullet_lines(&report.dependency_health.outdated_dependencies, "  - ").as_str());
        r.append(
            "Potential Actions:\n- Update dependencies to latest versions\n- Review security and compatibility\n\n🌳 Git Repository Health:\nIs Git Repository: ",
        );
        r.append(bool_text(report.git_health.is_git_repo));
        r.append("\nCurrent Branch: ");
        r.append(branch_text(&report.git_health.branch_name).as_str());
        r.append("\nUncommitted Changes: ");
        r.append(bool_text(report.git_health.uncommitted_changes));
        r.append("\nUnpushed Commits: ");
        r.append(bool_text(report.git_health.unpushed_commits));
        r.append(
            "\nPotential Actions:\n- Commit or stash uncommitted changes\n- Push local commits to remote\n- Consider creating feature branches\n\n💡 Recommendations:\n1. Prioritize features with 'Blocked' or 'InProgress' status\n2. Address stale features and outdated dependencies\n3. Maintain consistent Git workflow\n",
        );
        r
    }

    /// Checks the scanned project and summarises it at the given verbosity.
    pub fn generate_progress_summary(&self, scan: &ProjectScan, verbosity: &str) -> (r: String)
        ensures
            exists|report: ProjectHealthReport|
                is_health_of(report, *scan) && r@ == summary_for(report, verbosity@),
    {
        let report = self.run_all_checks(scan);
        let r = if text_eq(verbosity, "high") {
            self.generate_detailed_progress_summary(&report)
        } else if text_eq(verbosity, "low") {
            self.generate_brief_progress_summary(&report)
        } else {
            self.generate_standard_progress_summary(&report)
        };
        assert(is_health_of(report, *scan) && r@ == summary_for(report, verbosity@));
        r
    }
}

/// `block` when `items` is non-empty, nothing otherwise.
pub open spec fn unless_empty(items: Seq<String>, block: Seq<char>) -> Seq<char> {
    if items.len() == 0 {
        Seq::empty()
    } else {
        block
    }
}

/// The human-readable health report.
pub open spec fn health_report_text(r: ProjectHealthReport) -> Seq<char> {
    "🔍 Feature Health:\n   Total Features: "@ + decimal(r.feature_health.total_features as nat)
        + "\n   Status Distribution:\n"@ + dist_lines(r.feature_health.status_distribution, "     - "@)
        + unless_empty(
        r.feature_health.stale_features@,
        "   Stale Features:\n"@ + bullets(views(r.feature_health.stale_features@), "     - "@),
    ) + "\n📂 Project Structure:\n   Existing Directories:\n"@ + bullets(
        views(r.file_structure.existing_dirs@),
        "     - "@,
    ) + unless_empty(
        r.file_structure.missing_dirs@,
        "   Missing Recommended Directories:\n"@ + bullets(
            views(r.file_structure.missing_dirs@),
            "     - "@,
        ),
    ) + "\n📦 Dependency Health:\n   Total Dependencies: "@ + decimal(
        r.dependency_health.total_dependencies as nat,
    ) + "\n"@ + unless_empty(
        r.dependency_health.outdated_dependencies@,
        "   Outdated Dependencies:\n"@ + bullets(
            views(r.dependency_health.outdated_dependencies@),
            "     - "@,
        ),
    ) + "\n🌿 Git Repository Health:\n   Is Git Repository: "@ + bool_word(r.git_health.is_git_repo)
        + "\n   Current Branch: "@ + text_or(r.git_health.branch_name, "Unknown"@)
        + "\n   Uncommitted Changes: "@ + bool_word(r.git_health.uncommitted_changes)
        + "\n   Unpushed Commits: "@ + bool_word(r.git_health.unpushed_commits) + "\n"@
}

fn titled_bullets(title: &str, items: &Vec<String>) -> (r: String)
    ensures
        r@ == unless_empty(items@, title@ + bullets(views(items@), "     - "@)),
{
    if items.len() == 0 {
        String::new()
    } else {
        let mut r = String::from_str(title);
        r.append(bullet_lines(items, "     - ").as_str());
        r
    }
}

impl ProjectHealthReport {
    /// Renders the report for people to read.
    pub fn generate_report(&self) -> (r: String)
        ensures
            r@ == health_report_text(*self),
    {
        let mut r = String::from_str("🔍 Feature Health:\n   Total Features: ");
        r.append(decimal_text(self.feature_health.total_features).as_str());
        r.append("\n   Status Distribution:\n");
        r.append(dist_text(&self.feature_health.status_distribution, "     - ").as_str());
        r.append(titled_bullets("   Stale Features:\n", &self.feature_health.stale_features).as_str());
        r.append("\n📂 Project Structure:\n   Existing Directories:\n");
        r.append(bullet_lines(&self.file_structure.existing_dirs, "     - ").as_str());
        r.append(
            titled_bullets(
                "   Missing Recommended Directories:\n",
                &self.file_structure.missing_dirs,
            ).as_str(),
        );
        r.append("\n📦 Dependency Health:\n   Total Dependencies: ");
        r.append(decimal_text(self.dependency_health.total_dependencies).as_str());
        r.append("\n");
        r.append(
            titled_bullets(
                "   Outdated Dependencies:\n",
                &self.dependency_health.outdated_dependencies,
            ).as_str(),
        );
        r.append("\n🌿 Git Repository Health:\n   Is Git Repository: ");
        r.append(bool_text(self.git_health.is_git_repo));
        r.append("\n   Current Branch: ");
        r.append(branch_text(&self.git_health.branch_name).as_str());
        r.append("\n   Uncommitted Changes: ");
        r.append(bool_text(self.git_health.uncommitted_changes));
        r.append("\n   Unpushed Commits: ");
        r.append(bool_text(self.git_health.unpushed_commits));
        r.append("\n");
        r
    }
}

/// A stage of the comprehensive check run: formatter, linter, test runner.
#[derive(Clone, Copy, Debug, PartialEq, Eq, Structural)]
pub enum CheckStage {
    Formatting,
    Linting,
    Tests,
}

/// What the check run does next.
#[derive(Clone, Copy, Debug, PartialEq, Eq, Structural)]
pub enum CheckStep {
    /// Run this stage's tool in the project directory.
    Run(CheckStage),
    /// Every stage passed.
    Passed,
    /// This stage's tool failed; the stages after it are not run.
    Failed(CheckStage),
}

/// The stage that follows `s`, if any.
pub open spec fn stage_after(s: CheckStage) -> Option<CheckStage> {
    match s {
        CheckStage::Formatting => Some(CheckStage::Linting),
        CheckStage::Linting => Some(CheckStage::Tests),
        CheckStage::Tests => None,
    }
}

/// The title a stage is announced with.
pub open spec fn stage_title(s: CheckStage) -> Seq<char> {
    match s {
        CheckStage::Formatting => "Cargo Formatting Check"@,
        CheckStage::Linting => "Cargo Clippy Linting"@,
        CheckStage::Tests => "Cargo Test Suite"@,
    }
}

/// The arguments the stage's tool is run with.
pub open spec fn stage_args(s: CheckStage) -> Seq<Seq<char>> {
    match s {
        CheckStage::Formatting => seq!["fmt"@],
        CheckStage::Linting => seq!["clippy"@, "--"@, "-D"@, "warnings"@],
        CheckStage::Tests => seq!["test"@],
    }
}

impl CheckStage {
    /// The title the stage is announced with.
    pub fn title(&self) -> (r: &'static str)
        ensures
            r@ == stage_title(*self),
    {
        match self {
            CheckStage::Formatting => "Cargo Formatting Check",
            CheckStage::Linting => "Cargo Clippy Linting",
            CheckStage::Tests => "Cargo Test Suite",
        }
    }

    /// The program that runs the stage.
    pub fn program(&self) -> (r: &'static str)
        ensures
            r@ == "cargo"@,
    {
        "cargo"
    }

    /// The arguments the stage's program is run with.
    pub fn arguments(&self) -> (r: Vec<String>)
        ensures
            views(r@) == stage_args(*self),
    {
        let mut r: Vec<String> = Vec::new();
        match self {
            CheckStage::Formatting => {
                r.push(String::from_str("fmt"));
            },
            CheckStage::Linting => {
                r.push(String::from_str("clippy"));
                r.push(String::from_str("--"));
                r.push(String::from_str("-D"));
                r.push(String::from_str("warnings"));
            },
            CheckStage::Tests => {
                r.push(String::from_str("test"));
            },
        }
        assert(views(r@) =~= stage_args(*self));
        r
    }
}

/// The step after stage `s` ended: the next stage, or the end of the run;
/// a failure ends the run at once.
pub open spec fn step_after(s: CheckStage, succeeded: bool) -> CheckStep {
    if !succeeded {
        CheckStep::Failed(s)
    } else {
        match stage_after(s) {
            Some(n) => CheckStep::Run(n),
            None => CheckStep::Passed,
        }
    }
}

/// Where a run ends when the stages report `outcomes` in turn, from stage `s` on.
pub open spec fn run_from(s: CheckStage, outcomes: Seq<bool>) -> Option<CheckStep>
    decreases outcomes.len(),
{
    if outcomes.len() == 0 {
        None
    } else {
        match step_after(s, outcomes[0]) {
            CheckStep::Run(n) => run_from(n, outcomes.subrange(1, outcomes.len() as int)),
            end => Some(end),
        }
    }
}

impl ProjectChecker {
    /// The first step of the comprehensive check run: the formatter.
    pub fn first_check_step(&self) -> (r: CheckStep)
        ensures
            r == CheckStep::Run(CheckStage::Formatting),
    {
        CheckStep::Run(CheckStage::Formatting)
    }

    /// The step after stage `stage` ended, successfully or not.
    pub fn next_check_step(&self, stage: CheckStage, succeeded: bool) -> (r: CheckStep)
        ensures
            r == step_after(stage, succeeded),
    {
        if !succeeded {
            CheckStep::Failed(stage)
        } else {
            match stage {
                CheckStage::Formatting => CheckStep::Run(CheckStage::Linting),
                CheckStage::Linting => CheckStep::Run(CheckStage::Tests),
                CheckStage::Tests => CheckStep::Passed,
            }
        }
    }
}

/// The run passes only when all three stages succeed, and otherwise stops at
/// the first stage that fails.
pub proof fn lemma_run_stops_at_first_failure(a: bool, b: bool, c: bool)
    ensures
        run_from(CheckStage::Formatting, seq![a, b, c]) == Some(
            if !a {
                CheckStep::Failed(CheckStage::Formatting)
            } else if !b {
                CheckStep::Failed(CheckStage::Linting)
            } else if !c {
                CheckStep::Failed(CheckStage::Tests)
            } else {
                CheckStep::Passed
            },
        ),
{
    let o = seq![a, b, c];
    assert(o[0] == a);
    assert(o.subrange(1, 3) =~= seq![b, c]);
    assert(seq![b, c][0] == b);
    assert(seq![b, c].subrange(1, 2) =~= seq![c]);
    assert(seq![c][0] == c);
    assert(seq![c].subrange(1, 1) =~= Seq::<bool>::empty());
    assert(run_from(CheckStage::Tests, seq![c]) == Some(step_after(CheckStage::Tests, c)));
    if a {
        assert(run_from(CheckStage::Formatting, o) == run_from(CheckStage::Linting, seq![b, c]));
        if b {
            assert(run_from(CheckStage::Linting, seq![b, c]) == run_from(CheckStage::Tests, seq![c]));
        }
    }
}

/// Every path, relative to the project root, whose presence the checks and
/// the validation read: the recommended directories, the other required
/// ones, the repository directory and the package manifest.
pub open spec fn probed_paths() -> Seq<Seq<char>> {
    recommended_dirs() + seq![".fargin/prompts"@, ".fargin/history"@, ".git"@, "Cargo.toml"@]
}

/// The paths a caller has to probe to build a `ProjectScan`.
pub fn paths_to_probe() -> (r: Vec<String>)
    ensures
        views(r@) == probed_paths(),
{
    let mut r: Vec<String> = Vec::new();
    let mut i: usize = 0;
    while i < RECOMMENDED_DIR_COUNT
        invariant
            i <= RECOMMENDED_DIR_COUNT,
            views(r@) == recommended_dirs().subrange(0, i as int),
        decreases RECOMMENDED_DIR_COUNT - i,
    {
        let d = recommended_dir(i);
        let ghost before = views(r@);
        r.push(String::from_str(d));
        assert(views(r@) =~= before.push(d@));
        i = i + 1;
        assert(views(r@) =~= recommended_dirs().subrange(0, i as int));
    }
    assert(recommended_dirs().subrange(0, 8) =~= recommended_dirs());
    let ghost base = views(r@);
    r.push(String::from_str(".fargin/prompts"));
    r.push(String::from_str(".fargin/history"));
    r.push(String::from_str(".git"));
    r.push(String::from_str("Cargo.toml"));
    assert(views(r@) =~= base + seq![".fargin/prompts"@, ".fargin/history"@, ".git"@, "Cargo.toml"@]);
    assert(views(r@) =~= probed_paths());
    r
}

/// Whether a repeated check run goes on after `count` runs: always when the
/// cap `iterations` is zero, otherwise until `count` reaches it.
pub fn loop_continues(count: u64, iterations: u64) -> (r: bool)
    ensures
        r == (iterations == 0 || count < iterations),
{
    iterations == 0 || count < iterations
}
} // verus!
