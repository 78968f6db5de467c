//! Batch clone / pull of the repositories listed in a manifest.
//!
//! The library holds the decisions: which local directory a repository URL
//! maps to, whether a repository is cloned or pulled, which `git` commands a
//! unit of work runs, how a manifest is validated before dispatch, and how the
//! outcomes of a batch are gathered. Running `git`, walking directories and
//! reading or writing the manifest file are left to the caller.

mod batch;
mod git_config;
mod git_wrapper;
mod resolve;
mod sgit;

pub use batch::{
    collides, count_false, failures, has_collision, lemma_failures_match_injected,
    lemma_unresolvable_fails_closed, plan_batch, plan_fault, record_outcomes, unit_result,
    validate_manifest, BatchResult, ManifestError, Outcome,
};
pub use git_config::{discovered_origins, ini_entry, origin_url_of, GitConfig};
pub use git_wrapper::{
    after_steps, clone_or_pull_steps, lemma_clone_then_pull, plan_matches, pull_steps, step_args,
    steps_of, GitCommand, GitStep, GitWrapper, RepoFailure,
};
pub use resolve::{
    git_stripped, git_suffix, lemma_resolve_keeps_plain_name, lemma_resolve_strips_git_suffix,
    name_from_segments, repo_name, repo_name_of, segments_name, strip_git_suffix,
    url_path_segments, workspace_name_of,
};
pub use sgit::{present_entries, Sgit};
