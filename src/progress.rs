//! Progress of a project: how many of its markers are complete.

use vstd::prelude::*;
use crate::config::{ProgressMarker, ProjectConfig};
use crate::time::Timestamp;

verus! {

/// How far a project has come along its progress markers.
#[derive(Debug)]
pub struct ProgressReport {
    pub project_name: String,
    pub total_markers: usize,
    pub completed_markers: usize,
    pub last_updated: Timestamp,
    pub markers: Vec<ProgressMarker>,
}

/// How many of `markers` are completed.
pub open spec fn completed_count(markers: Seq<ProgressMarker>) -> nat
    decreases markers.len(),
{
    if markers.len() == 0 {
        0
    } else {
        completed_count(markers.drop_last()) + if markers.last().completed {
            1nat
        } else {
            0nat
        }
    }
}

/// How many of `markers` are completed.
pub fn count_completed(markers: &Vec<ProgressMarker>) -> (r: usize)
    ensures
        r == completed_count(markers@),
        r <= markers@.len(),
{
    let mut n: usize = 0;
    let mut i: usize = 0;
    while i < markers.len()
        invariant
            i <= markers@.len(),
            n == completed_count(markers@.subrange(0, i as int)),
            n <= i,
        decreases markers.len() - i,
    {
        let ghost pre = markers@.subrange(0, i as int);
        if markers[i].completed {
            n = n + 1;
        }
        i = i + 1;
        assert(markers@.subrange(0, i as int).drop_last() =~= pre);
    }
    assert(markers@.subrange(0, markers@.len() as int) =~= markers@);
    n
}

impl ProgressReport {
    /// The progress of the project that `config` describes.
    pub fn from_config(config: ProjectConfig) -> (r: ProgressReport)
        ensures
            r.project_name == config.name,
            r.total_markers == config.progress_markers@.len(),
            r.completed_markers == completed_count(config.progress_markers@),
            r.last_updated == config.last_updated,
            r.markers == config.progress_markers,
    {
        let total = config.progress_markers.len();
        let completed = count_completed(&config.progress_markers);
        ProgressReport {
            project_name: config.name,
            total_markers: total,
            completed_markers: completed,
            last_updated: config.last_updated,
            markers: config.progress_markers,
        }
    }
}

} // verus!
