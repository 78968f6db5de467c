use sgit::{repo_name, strip_git_suffix, GitCommand, GitWrapper, RepoFailure};

fn dir_of(cmd: &GitCommand) -> String {
    match cmd {
        GitCommand::Clone { dir, .. } => dir.clone(),
        GitCommand::Stash { dir } => dir.clone(),
        GitCommand::Pull { dir } => dir.clone(),
    }
}

#[test]
fn repo_name_success() {
    let name = GitWrapper::new("https://github.com/phodal/batch-git").get_repo_name();
    assert_eq!("batch-git", name.unwrap());
}

#[test]
fn suffix_name_success() {
    let name = GitWrapper::new("https://github.com/phodal/batch-git.git").get_repo_name();
    assert_eq!("batch-git", name.unwrap());
}

#[test]
fn repo_name_return_empty() {
    let name = GitWrapper::new("batch-git").get_repo_name();

    assert!(name.is_none());
}

#[test]
fn resolve_deep_path_with_suffix() {
    assert_eq!(repo_name("ssh://git@host/a/b/c/name.git"), Some("name".to_string()));
}

#[test]
fn resolve_strips_suffix_once() {
    assert_eq!(repo_name("https://host/org/name.git.git"), Some("name.git".to_string()));
}

#[test]
fn resolve_not_a_url() {
    assert_eq!(repo_name("just-a-name"), None);
}

#[test]
fn resolve_empty_last_segment() {
    assert_eq!(repo_name("https://host/"), Some(String::new()));
    let plan = GitWrapper::new("https://host/").try_pull(false);
    assert_eq!(plan.unwrap_err(), RepoFailure::InvalidRepositoryReference);
}

#[test]
fn strip_suffix_cases() {
    assert_eq!(strip_git_suffix("repo.git"), "repo");
    assert_eq!(strip_git_suffix("repo"), "repo");
    assert_eq!(strip_git_suffix(".git"), "");
    assert_eq!(strip_git_suffix("git"), "git");
}

#[test]
fn clone_when_absent() {
    let w = GitWrapper::new("https://github.com/phodal/batch-git.git");
    let plan = w.try_clone(&Vec::new(), true).unwrap();
    assert_eq!(plan.len(), 1);
    assert_eq!(
        plan[0].args(),
        vec!["clone".to_string(), "https://github.com/phodal/batch-git.git".to_string(), "batch-git".to_string()]
    );
}

#[test]
fn pull_when_present() {
    let w = GitWrapper::new("https://github.com/phodal/batch-git");
    let present = vec!["other".to_string(), "batch-git".to_string()];
    let plan = w.try_clone(&present, false).unwrap();
    assert_eq!(plan.len(), 1);
    assert_eq!(plan[0].args(), vec!["-C".to_string(), "batch-git".to_string(), "pull".to_string()]);
}

#[test]
fn pull_with_stash_first() {
    let plan = GitWrapper::pull(&"https://host/org/repo".to_string(), true).unwrap();
    assert_eq!(plan.len(), 2);
    assert_eq!(plan[0].args(), vec!["-C".to_string(), "repo".to_string(), "stash".to_string()]);
    assert_eq!(plan[1].args(), vec!["-C".to_string(), "repo".to_string(), "pull".to_string()]);
}

#[test]
fn clean_and_clone_commands() {
    let w = GitWrapper::new("https://host/org/repo.git");
    assert_eq!(w.try_clean().unwrap().args(), vec!["-C".to_string(), "repo".to_string(), "stash".to_string()]);
    assert_eq!(
        w.done_clone().unwrap().args(),
        vec!["clone".to_string(), "https://host/org/repo.git".to_string(), "repo".to_string()]
    );
    assert_eq!(GitWrapper::new("nope").done_clone().unwrap_err(), RepoFailure::InvalidRepositoryReference);
    assert_eq!(GitWrapper::new("nope").try_clean().unwrap_err(), RepoFailure::InvalidRepositoryReference);
}

#[test]
fn invalid_reference_is_rejected() {
    let plan = GitWrapper::clone(&"just-a-name".to_string(), &Vec::new(), false);
    assert_eq!(plan.unwrap_err(), RepoFailure::InvalidRepositoryReference);
}

#[test]
fn second_run_pulls_instead_of_cloning() {
    let repo = "https://host/org/repo.git".to_string();
    let mut present: Vec<String> = Vec::new();
    let mut clones = 0;
    let mut pulls = 0;
    for _ in 0..2 {
        let plan = GitWrapper::clone(&repo, &present, false).unwrap();
        for cmd in &plan {
            match cmd {
                GitCommand::Clone { .. } => {
                    clones += 1;
                    present.push(dir_of(cmd));
                }
                GitCommand::Pull { .. } => pulls += 1,
                GitCommand::Stash { .. } => {}
            }
        }
    }
    assert_eq!(clones, 1);
    assert_eq!(pulls, 1);
}
