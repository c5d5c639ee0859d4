//! The records that the dashboard receives from its API.

use vstd::prelude::*;
use crate::env::EnvVars;

verus! {

/// Where a workload's image comes from.
#[derive(Clone)]
pub enum Source {
    /// Built from a repository, optionally from a branch and a sub-directory.
    Github { url: String, branch: Option<String>, root_dir: Option<String> },
    /// Deployed directly from a published image.
    Direct { image_url: String },
}

/// The core record of a deployed workload. Its run state is fetched apart.
#[derive(Clone)]
pub struct Project {
    pub id: i32,
    pub name: String,
    pub owner: String,
    pub source: Source,
    pub deployed_image_tag: String,
    pub persistent_volume_path: Option<String>,
    pub env_vars: Option<EnvVars>,
    pub created_at: String,
}

/// A database and its credentials; `project_id` is absent while the
/// database is a personal one linked to no workload.
#[derive(Clone)]
pub struct DatabaseDetails {
    pub id: i32,
    pub host: String,
    pub port: i32,
    pub database_name: String,
    pub username: String,
    pub password: String,
    pub project_id: Option<i32>,
}

/// A workload with its participants and its linked database, if any.
#[derive(Clone)]
pub struct ProjectDetails {
    pub project: Project,
    pub participants: Vec<String>,
    pub database: Option<DatabaseDetails>,
}

} // verus!
