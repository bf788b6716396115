//! Validation of a project: required directories and configuration fields.

use vstd::prelude::*;
use crate::check::ProjectScan;
use crate::config::ProjectConfig;
use crate::text::{list_has, occurs_at, occurs_in};

verus! {

/// The outcome of one check.
#[derive(Clone, Copy, Debug, PartialEq, Eq, Structural)]
pub enum ValidationStatus {
    Pass,
    Warning,
    Error,
}

/// One named check with its outcome and an optional explanation.
#[derive(Debug)]
pub struct ValidationCheck {
    pub name: String,
    pub status: ValidationStatus,
    pub message: Option<String>,
}

/// The checks made on a project, in order.
#[derive(Debug)]
pub struct ValidationReport {
    pub checks: Vec<ValidationCheck>,
}

/// Some check of `checks` failed.
pub open spec fn any_error(checks: Seq<ValidationCheck>) -> bool {
    exists|i: int| 0 <= i < checks.len() && (#[trigger] checks[i]).status == ValidationStatus::Error
}

impl ValidationReport {
    /// A report with no checks.
    pub fn new() -> (r: ValidationReport)
        ensures
            r.checks@.len() == 0,
    {
        ValidationReport { checks: Vec::new() }
    }

    /// Appends a check.
    pub fn add_check(&mut self, check: ValidationCheck)
        ensures
            final(self).checks@ == old(self).checks@.push(check),
    {
        self.checks.push(check);
    }

    /// Whether any check failed with an error (warnings do not count).
    pub fn has_errors(&self) -> (r: bool)
        ensures
            r == any_error(self.checks@),
    {
        let mut i: usize = 0;
        while i < self.checks.len()
            invariant
                i <= self.checks@.len(),
                forall|k: int| 0 <= k < i ==> (#[trigger] self.checks@[k]).status != ValidationStatus::Error,
            decreases self.checks.len() - i,
        {
            if self.checks[i].status == ValidationStatus::Error {
                return true;
            }
            i = i + 1;
        }
        false
    }
}

impl Default for ValidationReport {
    fn default() -> (r: ValidationReport)
        ensures
            r.checks@.len() == 0,
    {
        ValidationReport::new()
    }
}

/// The directories every managed project has, in the order they are checked.
pub open spec fn required_dirs() -> Seq<Seq<char>> {
    seq![".fargin"@, ".fargin/prompts"@, ".fargin/history"@, ".fargin/templates"@]
}

/// Number of required directories.
pub const REQUIRED_DIR_COUNT: usize = 4;

/// The first of `dirs` that the scanned project lacks.
pub open spec fn first_missing(dirs: Seq<Seq<char>>, scan: ProjectScan) -> Option<Seq<char>>
    decreases dirs.len(),
{
    if dirs.len() == 0 {
        None
    } else if !scan.has_path(dirs[0]) {
        Some(dirs[0])
    } else {
        first_missing(dirs.subrange(1, dirs.len() as int), scan)
    }
}

/// `c` is the directory check of the scanned project: an error naming the
/// first missing required directory, or a pass.
pub open spec fn is_dir_check(c: ValidationCheck, scan: ProjectScan) -> bool {
    &&& c.name@ == "Directory Structure"@
    &&& match first_missing(required_dirs(), scan) {
        Some(d) => c.status == ValidationStatus::Error && (c.message matches Some(m) && m@
            == "Missing required directory: "@ + d),
        None => c.status == ValidationStatus::Pass && c.message is None,
    }
}

/// `c` is the configuration check of `config`: an error for an empty name, a
/// warning for an empty description, a pass otherwise.
pub open spec fn is_config_check(c: ValidationCheck, config: ProjectConfig) -> bool {
    &&& c.name@ == "Configuration"@
    &&& if config.name@.len() == 0 {
        c.status == ValidationStatus::Error && (c.message matches Some(m) && m@
            == "Project name cannot be empty"@)
    } else if config.description@.len() == 0 {
        c.status == ValidationStatus::Warning && (c.message matches Some(m) && m@
            == "Project description is empty"@)
    } else {
        c.status == ValidationStatus::Pass && c.message is None
    }
}

fn required_dir(i: usize) -> (r: &'static str)
    requires
        i < REQUIRED_DIR_COUNT,
    ensures
        r@ == required_dirs()[i as int],
{
    if i == 0 {
        ".fargin"
    } else if i == 1 {
        ".fargin/prompts"
    } else if i == 2 {
        ".fargin/history"
    } else {
        ".fargin/templates"
    }
}

/// Checks that the required directories exist, reporting the first missing one.
pub fn validate_directory_structure(scan: &ProjectScan) -> (r: ValidationCheck)
    ensures
        is_dir_check(r, *scan),
{
    let mut i: usize = 0;
    assert(required_dirs().subrange(0, 4) =~= required_dirs());
    while i < REQUIRED_DIR_COUNT
        invariant
            i <= REQUIRED_DIR_COUNT,
            first_missing(required_dirs(), *scan) == first_missing(
                required_dirs().subrange(i as int, 4),
                *scan,
            ),
        decreases REQUIRED_DIR_COUNT - i,
    {
        let dir = required_dir(i);
        let ghost rest = required_dirs().subrange(i as int, 4);
        assert(rest[0] == dir@);
        if !list_has(&scan.existing_paths, dir) {
            let mut m = String::from_str("Missing required directory: ");
            m.append(dir);
            return ValidationCheck {
                name: String::from_str("Directory Structure"),
                status: ValidationStatus::Error,
                message: Some(m),
            };
        }
        assert(rest.subrange(1, rest.len() as int) =~= required_dirs().subrange(i + 1, 4));
        i = i + 1;
    }
    assert(required_dirs().subrange(4, 4) =~= Seq::<Seq<char>>::empty());
    ValidationCheck {
        name: String::from_str("Directory Structure"),
        status: ValidationStatus::Pass,
        message: None,
    }
}

/// Checks the configuration: the name must not be empty, and an empty
/// description is worth a warning.
pub fn validate_configuration(config: &ProjectConfig) -> (r: ValidationCheck)
    ensures
        is_config_check(r, *config),
{
    if config.name.as_str().unicode_len() == 0 {
        return ValidationCheck {
            name: String::from_str("Configuration"),
            status: ValidationStatus::Error,
            message: Some(String::from_str("Project name cannot be empty")),
        };
    }
    if config.description.as_str().unicode_len() == 0 {
        return ValidationCheck {
            name: String::from_str("Configuration"),
            status: ValidationStatus::Warning,
            message: Some(String::from_str("Project description is empty")),
        };
    }
    ValidationCheck {
        name: String::from_str("Configuration"),
        status: ValidationStatus::Pass,
        message: None,
    }
}

/// The report of a scanned project with configuration `config`.
pub open spec fn is_validation_of(r: ValidationReport, scan: ProjectScan, config: ProjectConfig) -> bool {
    &&& r.checks@.len() == 2
    &&& is_dir_check(r.checks@[0], scan)
    &&& is_config_check(r.checks@[1], config)
}

/// Validates a project: its directories first, then its configuration.
pub fn validate_project(scan: &ProjectScan, config: &ProjectConfig) -> (r: ValidationReport)
    ensures
        is_validation_of(r, *scan, *config),
{
    let mut report = ValidationReport::new();
    report.add_check(validate_directory_structure(scan));
    report.add_check(validate_configuration(config));
    report
}

/// A project that lacks `.fargin/templates` fails validation; when `.fargin`
/// and its prompts and history directories are there, the failing check's
/// message names the templates directory (otherwise it names the first
/// directory that is missing).
pub proof fn lemma_missing_templates(r: ValidationReport, scan: ProjectScan, config: ProjectConfig)
    requires
        is_validation_of(r, scan, config),
        !scan.has_path(".fargin/templates"@),
    ensures
        any_error(r.checks@),
        scan.has_path(".fargin"@) && scan.has_path(".fargin/prompts"@) && scan.has_path(
            ".fargin/history"@,
        ) ==> (r.checks@[0].message matches Some(m) && occurs_in(m@, "templates"@)),
{
    let d = required_dirs();
    assert(d.len() == 4);
    assert(d[0] == ".fargin"@);
    assert(d.subrange(1, 4)[0] == ".fargin/prompts"@);
    assert(d.subrange(2, 4)[0] == ".fargin/history"@);
    assert(d.subrange(3, 4)[0] == ".fargin/templates"@);
    assert(d.subrange(1, 4).subrange(1, 3) =~= d.subrange(2, 4));
    assert(d.subrange(2, 4).subrange(1, 2) =~= d.subrange(3, 4));
    assert(first_missing(d.subrange(3, 4), scan) == Some(".fargin/templates"@));
    assert(first_missing(d.subrange(2, 4), scan) is Some);
    assert(first_missing(d.subrange(1, 4), scan) is Some);
    assert(first_missing(required_dirs(), scan) is Some);
    assert(r.checks@[0].status == ValidationStatus::Error);
    if scan.has_path(".fargin"@) && scan.has_path(".fargin/prompts"@) && scan.has_path(
        ".fargin/history"@,
    ) {
        assert(first_missing(d.subrange(2, 4), scan) == Some(".fargin/templates"@));
        assert(first_missing(d.subrange(1, 4), scan) == Some(".fargin/templates"@));
        assert(first_missing(required_dirs(), scan) == Some(".fargin/templates"@));
        let m = r.checks@[0].message.unwrap();
        reveal_strlit("Missing required directory: ");
        reveal_strlit(".fargin/templates");
        reveal_strlit("templates");
        assert(m@.subrange(36, 45) =~= "templates"@);
        assert(occurs_at(m@, "templates"@, 36));
    }
}

} // verus!
