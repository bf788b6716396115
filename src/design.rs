//! Design documents: their file names and their initial text.

use vstd::prelude::*;
use crate::features::{feature_id, feature_id_for};
use crate::time::Timestamp;

verus! {

/// The text of a new design document; `created` is the creation time as shown.
pub open spec fn design_text(name: Seq<char>, description: Option<Seq<char>>, created: Seq<char>) -> Seq<
    char,
> {
    "# Design: "@ + name + "\n\n## Description\n"@ + match description {
        Some(d) => d,
        None => "No description provided"@,
    } + "\n\n## Created\n"@ + created + "\n\n## Status\nDraft\n"@
}

/// The file name of a design named `name` created at `now`: the same stamp
/// and slug as a feature's identifier, with the `.md` extension.
pub fn design_file_name(name: &str, now: Timestamp) -> (r: String)
    requires
        now.valid(),
    ensures
        r@ == feature_id_for(name@, now) + ".md"@,
{
    let mut r = feature_id(name, now);
    r.append(".md");
    r
}

/// The text of a new design document.
pub fn design_document(name: &str, description: Option<&str>, created: &str) -> (r: String)
    ensures
        r@ == design_text(
            name@,
            match description {
                Some(d) => Some(d@),
                None => None,
            },
            created@,
        ),
{
    let mut r = String::from_str("# Design: ");
    r.append(name);
    r.append("\n\n## Description\n");
    match description {
        Some(d) => r.append(d),
        None => r.append("No description provided"),
    }
    r.append("\n\n## Created\n");
    r.append(created);
    r.append("\n\n## Status\nDraft\n");
    r
}

} // verus!
