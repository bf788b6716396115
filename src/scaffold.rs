//! What initialising a project writes: the management directory with its
//! guides, minimal project skeletons, and the arguments of the project
//! generators that are run.

use vstd::prelude::*;
use crate::text::views;

verus! {

/// A file to write, at a path relative to the project directory.
pub struct PlannedFile {
    pub path: String,
    pub content: String,
}

/// Path and content of a planned file.
pub open spec fn planned(f: PlannedFile) -> (Seq<char>, Seq<char>) {
    (f.path@, f.content@)
}

/// Paths and contents of planned files.
pub open spec fn plan_view(fs: Seq<PlannedFile>) -> Seq<(Seq<char>, Seq<char>)> {
    fs.map_values(|f: PlannedFile| planned(f))
}

/// Why a project skeleton could not be planned.
#[derive(Clone, Copy, Debug, PartialEq, Eq, Structural)]
pub enum InitError {
    /// Only `rust` and `python` skeletons exist.
    UnsupportedProjectType,
}

impl InitError {
    /// A sentence that describes the error.
    pub fn message(&self) -> &'static str {
        "Unsupported project type"
    }
}

/// The guide placed in a management subdirectory.
pub open spec fn subdir_readme(title: Seq<char>, purpose: Seq<char>) -> Seq<char> {
    "# "@ + title + "\n\nThis directory is used for storing "@ + purpose + " related to the project."@
}

/// The guide placed in the management directory itself.
pub open spec fn fargin_readme(project_name: Seq<char>) -> Seq<char> {
    "# Fargin Project Management for "@ + project_name
        + "\n\n## Overview\nThis directory contains Fargin-specific project management artifacts and tools.\n\n## Directory Structure\n- `prompts/`: Store project-specific AI and human prompts\n- `templates/`: Project templates and boilerplate code\n- `history/`: Track project evolution and changes\n- `artifacts/`: Store generated files, logs, and build outputs\n- `docs/`: Project documentation and design notes\n\n## Usage\nFargin helps manage project complexity, track features, and streamline development workflows.\n\n### Recommended Practices\n1. Use prompts to capture project requirements\n2. Store reusable templates\n3. Document project changes in history\n4. Keep generated artifacts organized\n5. Maintain comprehensive documentation\n\n*Managed by Fargin CLI*\n"@
}

/// The ignore rules of the management directory.
pub open spec fn fargin_gitignore() -> Seq<char> {
    "# Ignore sensitive or large artifacts\nartifacts/large_files/\nhistory/backups/\n*.log\n"@
}

/// The files of the management directory of project `project_name`.
pub open spec fn fargin_files(project_name: Seq<char>) -> Seq<(Seq<char>, Seq<char>)> {
    seq![
        (".fargin/prompts/README.md"@, subdir_readme("PROMPTS"@, "AI and human prompts"@)),
        (
            ".fargin/templates/README.md"@,
            subdir_readme("TEMPLATES"@, "project templates and boilerplate code"@),
        ),
        (".fargin/history/README.md"@, subdir_readme("HISTORY"@, "project changes and evolution"@)),
        (
            ".fargin/artifacts/README.md"@,
            subdir_readme("ARTIFACTS"@, "generated files, logs, and build outputs"@),
        ),
        (".fargin/docs/README.md"@, subdir_readme("DOCS"@, "project documentation and design notes"@)),
        (".fargin/README.md"@, fargin_readme(project_name)),
        (".fargin/.gitignore"@, fargin_gitignore()),
    ]
}

/// The description given to a project when its management directory is made.
pub open spec fn managed_description() -> Seq<char> {
    "A project managed with Fargin CLI"@
}

fn planned_file(path: &str, content: String) -> (r: PlannedFile)
    ensures
        planned(r) == (path@, content@),
{
    PlannedFile { path: String::from_str(path), content }
}

fn readme_text(title: &str, purpose: &str) -> (r: String)
    ensures
        r@ == subdir_readme(title@, purpose@),
{
    let mut r = String::from_str("# ");
    r.append(title);
    r.append("\n\nThis directory is used for storing ");
    r.append(purpose);
    r.append(" related to the project.");
    r
}

/// The files of the management directory of project `project_name`: a guide
/// in each subdirectory, a guide to the whole, and ignore rules.
pub fn fargin_structure_files(project_name: &str) -> (r: Vec<PlannedFile>)
    ensures
        plan_view(r@) == fargin_files(project_name@),
{
    let mut r: Vec<PlannedFile> = Vec::new();
    r.push(planned_file(".fargin/prompts/README.md", readme_text("PROMPTS", "AI and human prompts")));
    r.push(
        planned_file(
            ".fargin/templates/README.md",
            readme_text("TEMPLATES", "project templates and boilerplate code"),
        ),
    );
    r.push(
        planned_file(
            ".fargin/history/README.md",
            readme_text("HISTORY", "project changes and evolution"),
        ),
    );
    r.push(
        planned_file(
            ".fargin/artifacts/README.md",
            readme_text("ARTIFACTS", "generated files, logs, and build outputs"),
        ),
    );
    r.push(
        planned_file(
            ".fargin/docs/README.md",
            readme_text("DOCS", "project documentation and design notes"),
        ),
    );
    let mut readme = String::from_str("# Fargin Project Management for ");
    readme.append(project_name);
    readme.append(
        "\n\n## Overview\nThis directory contains Fargin-specific project management artifacts and tools.\n\n## Directory Structure\n- `prompts/`: Store project-specific AI and human prompts\n- `templates/`: Project templates and boilerplate code\n- `history/`: Track project evolution and changes\n- `artifacts/`: Store generated files, logs, and build outputs\n- `docs/`: Project documentation and design notes\n\n## Usage\nFargin helps manage project complexity, track features, and streamline development workflows.\n\n### Recommended Practices\n1. Use prompts to capture project requirements\n2. Store reusable templates\n3. Document project changes in history\n4. Keep generated artifacts organized\n5. Maintain comprehensive documentation\n\n*Managed by Fargin CLI*\n",
    );
    r.push(planned_file(".fargin/README.md", readme));
    r.push(
        planned_file(
            ".fargin/.gitignore",
            String::from_str(
                "# Ignore sensitive or large artifacts\nartifacts/large_files/\nhistory/backups/\n*.log\n",
            ),
        ),
    );
    assert(plan_view(r@) =~= fargin_files(project_name@));
    r
}

/// The description given to a project when its management directory is made.
pub fn managed_project_description() -> (r: String)
    ensures
        r@ == managed_description(),
{
    String::from_str("A project managed with Fargin CLI")
}

/// The manifest of a minimal Rust project.
pub open spec fn cargo_manifest(name: Seq<char>) -> Seq<char> {
    "\n[package]\nname = \""@ + name + "\"\nversion = \"0.1.0\"\nedition = \"2021\"\n\n[dependencies]\n"@
}

/// The manifest of a minimal Python project.
pub open spec fn python_manifest(name: Seq<char>) -> Seq<char> {
    "\n[tool.poetry]\nname = \""@ + name
        + "\"\nversion = \"0.1.0\"\ndescription = \"\"\nauthors = []\n\n[tool.poetry.dependencies]\npython = \"^3.8\"\n\n[build-system]\nrequires = [\"poetry-core\"]\nbuild-backend = \"poetry.core.masonry.api\"\n"@
}

/// The files of a minimal project of the given type, if that type has a skeleton.
pub open spec fn skeleton(name: Seq<char>, project_type: Seq<char>) -> Option<
    Seq<(Seq<char>, Seq<char>)>,
> {
    if project_type == "rust"@ {
        Some(
            seq![
                ("Cargo.toml"@, cargo_manifest(name)),
                ("src/main.rs"@, "fn main() {\n    println!(\"Hello, world!\");\n}\n"@),
            ],
        )
    } else if project_type == "python"@ {
        Some(
            seq![
                ("pyproject.toml"@, python_manifest(name)),
                ("src/__init__.py"@, ""@),
                (
                    "src/main.py"@,
                    "def main():\n    print('Hello, world!')\n\nif __name__ == '__main__':\n    main()\n"@,
                ),
            ],
        )
    } else {
        None
    }
}

/// The files of a minimal `rust` or `python` project named `name`; any other
/// type is refused.
pub fn minimal_project_files(name: &str, project_type: &str) -> (r: Result<Vec<PlannedFile>, InitError>)
    ensures
        r is Ok <==> skeleton(name@, project_type@) is Some,
        r matches Ok(fs) ==> plan_view(fs@) == skeleton(name@, project_type@)->Some_0,
        r matches Err(e) ==> e == InitError::UnsupportedProjectType,
{
    let mut r: Vec<PlannedFile> = Vec::new();
    if crate::text::text_eq(project_type, "rust") {
        let mut manifest = String::from_str("\n[package]\nname = \"");
        manifest.append(name);
        manifest.append("\"\nversion = \"0.1.0\"\nedition = \"2021\"\n\n[dependencies]\n");
        r.push(planned_file("Cargo.toml", manifest));
        r.push(
            planned_file(
                "src/main.rs",
                String::from_str("fn main() {\n    println!(\"Hello, world!\");\n}\n"),
            ),
        );
        assert(plan_view(r@) =~= skeleton(name@, project_type@)->Some_0);
        Ok(r)
    } else if crate::text::text_eq(project_type, "python") {
        let mut manifest = String::from_str("\n[tool.poetry]\nname = \"");
        manifest.append(name);
        manifest.append(
            "\"\nversion = \"0.1.0\"\ndescription = \"\"\nauthors = []\n\n[tool.poetry.dependencies]\npython = \"^3.8\"\n\n[build-system]\nrequires = [\"poetry-core\"]\nbuild-backend = \"poetry.core.masonry.api\"\n",
        );
        r.push(planned_file("pyproject.toml", manifest));
        r.push(planned_file("src/__init__.py", String::from_str("")));
        r.push(
            planned_file(
                "src/main.py",
                String::from_str(
                    "def main():\n    print('Hello, world!')\n\nif __name__ == '__main__':\n    main()\n",
                ),
            ),
        );
        assert(plan_view(r@) =~= skeleton(name@, project_type@)->Some_0);
        Ok(r)
    } else {
        Err(InitError::UnsupportedProjectType)
    }
}

/// The arguments of `cargo new` for a project `name`, with an optional template.
pub open spec fn cargo_new_args(name: Seq<char>, template: Option<Seq<char>>) -> Seq<Seq<char>> {
    seq!["new"@, name] + match template {
        Some(t) => seq!["--template"@, t],
        None => Seq::empty(),
    }
}

/// The arguments of `cargo new` for a project `name`, with an optional template.
pub fn cargo_new_arguments(name: &str, template: Option<&str>) -> (r: Vec<String>)
    ensures
        views(r@) == cargo_new_args(
            name@,
            match template {
                Some(t) => Some(t@),
                None => None,
            },
        ),
{
    let mut r: Vec<String> = Vec::new();
    r.push(String::from_str("new"));
    r.push(String::from_str(name));
    if let Some(t) = template {
        r.push(String::from_str("--template"));
        r.push(String::from_str(t));
    }
    assert(views(r@) =~= cargo_new_args(
        name@,
        match template {
            Some(t) => Some(t@),
            None => None,
        },
    ));
    r
}

/// The arguments of `cargo generate` for a project `name` from a template repository.
pub fn cargo_generate_arguments(name: &str, template: &str) -> (r: Vec<String>)
    ensures
        views(r@) == seq!["generate"@, "--name"@, name@, "--git"@, template@],
{
    let mut r: Vec<String> = Vec::new();
    r.push(String::from_str("generate"));
    r.push(String::from_str("--name"));
    r.push(String::from_str(name));
    r.push(String::from_str("--git"));
    r.push(String::from_str(template));
    assert(views(r@) =~= seq!["generate"@, "--name"@, name@, "--git"@, template@]);
    r
}

} // verus!
