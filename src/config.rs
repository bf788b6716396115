//! The project's configuration: name, description, goals and progress markers.

use vstd::prelude::*;
use crate::time::{current_time, Timestamp};

verus! {

/// A named milestone of the project.
#[derive(Clone, Debug)]
pub struct ProgressMarker {
    pub name: String,
    pub description: String,
    pub completed: bool,
    pub completed_at: Option<Timestamp>,
}

/// The configuration of one project.
#[derive(Clone, Debug)]
pub struct ProjectConfig {
    pub name: String,
    pub description: String,
    pub created_at: Timestamp,
    pub last_updated: Timestamp,
    pub goals: Vec<String>,
    pub progress_markers: Vec<ProgressMarker>,
}

impl ProjectConfig {
    /// A configuration created now, with no goals and no markers.
    pub fn new(name: String, description: String) -> (r: ProjectConfig)
        ensures
            r.name == name,
            r.description == description,
            r.created_at.valid(),
            r.last_updated == r.created_at,
            r.goals@.len() == 0,
            r.progress_markers@.len() == 0,
    {
        let now = current_time();
        ProjectConfig::new_at(name, description, now)
    }

    /// A configuration created at `now`, with no goals and no markers.
    pub fn new_at(name: String, description: String, now: Timestamp) -> (r: ProjectConfig)
        ensures
            r.name == name,
            r.description == description,
            r.created_at == now,
            r.last_updated == now,
            r.goals@.len() == 0,
            r.progress_markers@.len() == 0,
    {
        ProjectConfig {
            name,
            description,
            created_at: now,
            last_updated: now,
            goals: Vec::new(),
            progress_markers: Vec::new(),
        }
    }
}

} // verus!
