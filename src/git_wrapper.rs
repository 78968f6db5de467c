//! The `git` work for one repository, as a plan of commands.
//!
//! Nothing here runs `git`: each method returns the commands to run, in
//! order, and the caller runs them in the repository's unit of work.
use vstd::prelude::*;
use crate::resolve::{repo_name, repo_name_of, workspace_name_of};

verus! {

/// Why the work on one repository did not succeed.
#[derive(Clone, Copy, Debug, PartialEq, Eq, Structural)]
pub enum RepoFailure {
    /// The reference has no workspace name: it is no URL with a path, or
    /// its name is empty.
    InvalidRepositoryReference,
    /// A `git` command of the plan did not succeed.
    ExecutorFailure,
}

/// One `git` command.
#[derive(Debug)]
pub enum GitCommand {
    /// `git clone <repo> <dir>`: creates `dir` from the remote `repo`.
    Clone { repo: String, dir: String },
    /// `git -C <dir> stash`: puts the local changes of `dir` aside.
    Stash { dir: String },
    /// `git -C <dir> pull`: updates `dir` from its remote.
    Pull { dir: String },
}

/// The abstract form of a [`GitCommand`].
pub enum GitStep {
    Clone { repo: Seq<char>, dir: Seq<char> },
    Stash { dir: Seq<char> },
    Pull { dir: Seq<char> },
}

impl View for GitCommand {
    type V = GitStep;

    open spec fn view(&self) -> GitStep {
        match self {
            GitCommand::Clone { repo, dir } => GitStep::Clone { repo: repo@, dir: dir@ },
            GitCommand::Stash { dir } => GitStep::Stash { dir: dir@ },
            GitCommand::Pull { dir } => GitStep::Pull { dir: dir@ },
        }
    }
}

pub open spec fn steps_of(cmds: Seq<GitCommand>) -> Seq<GitStep> {
    cmds.map_values(|c: GitCommand| c@)
}

/// The arguments that follow `git` for a step.
pub open spec fn step_args(step: GitStep) -> Seq<Seq<char>> {
    match step {
        GitStep::Clone { repo, dir } => seq!["clone"@, repo, dir],
        GitStep::Stash { dir } => seq!["-C"@, dir, "stash"@],
        GitStep::Pull { dir } => seq!["-C"@, dir, "pull"@],
    }
}

impl GitCommand {
    /// The arguments to hand to `git`.
    pub fn args(&self) -> (r: Vec<String>)
        ensures
            r.deep_view() == step_args(self@),
    {
        let r = match self {
            GitCommand::Clone { repo, dir } => vec!["clone".to_owned(), repo.clone(), dir.clone()],
            GitCommand::Stash { dir } => vec!["-C".to_owned(), dir.clone(), "stash".to_owned()],
            GitCommand::Pull { dir } => vec!["-C".to_owned(), dir.clone(), "pull".to_owned()],
        };
        assert(r.deep_view() =~= step_args(self@));
        r
    }
}

/// The steps that update the workspace `dir`: a pull, after a stash of the
/// local changes where `stash_first` asks for it.
pub open spec fn pull_steps(dir: Seq<char>, stash_first: bool) -> Seq<GitStep> {
    if stash_first {
        seq![GitStep::Stash { dir }, GitStep::Pull { dir }]
    } else {
        seq![GitStep::Pull { dir }]
    }
}

/// The steps that bring `repo` up to date where the directories in `present`
/// exist: a clone where its workspace is absent, a pull where it is present,
/// and `None` where `repo` has no workspace name.
pub open spec fn clone_or_pull_steps(
    repo: Seq<char>,
    present: Seq<Seq<char>>,
    stash_first: bool,
) -> Option<Seq<GitStep>> {
    match workspace_name_of(repo) {
        None => None,
        Some(dir) => Some(
            if present.contains(dir) {
                pull_steps(dir, stash_first)
            } else {
                seq![GitStep::Clone { repo, dir }]
            },
        ),
    }
}

/// A plan meets `steps`: it is `Ok` exactly where `steps` is `Some`, with
/// those steps, and otherwise fails for want of a workspace name.
pub open spec fn plan_matches(r: Result<Vec<GitCommand>, RepoFailure>, steps: Option<Seq<GitStep>>) -> bool {
    match r {
        Ok(cmds) => steps == Some(steps_of(cmds@)),
        Err(e) => steps is None && e == RepoFailure::InvalidRepositoryReference,
    }
}

/// The directories present after the steps succeeded, starting from
/// `present`: a clone adds its directory.
pub open spec fn after_steps(present: Seq<Seq<char>>, steps: Seq<GitStep>) -> Seq<Seq<char>>
    decreases steps.len(),
{
    if steps.len() == 0 {
        present
    } else {
        let before = after_steps(present, steps.drop_last());
        match steps.last() {
            GitStep::Clone { dir, .. } => before.push(dir),
            _ => before,
        }
    }
}

/// Returns whether `name` is one of `present`.
fn contains_name(present: &Vec<String>, name: &String) -> (r: bool)
    ensures
        r == present.deep_view().contains(name@),
{
    let mut i: usize = 0;
    while i < present.len()
        invariant
            i <= present.len(),
            forall|j: int| 0 <= j < i ==> present.deep_view()[j] != name@,
        decreases present.len() - i,
    {
        if present[i] == *name {
            assert(present.deep_view()[i as int] == name@);
            return true;
        }
        i += 1;
    }
    false
}

/// The work on one repository reference.
#[derive(Debug)]
pub struct GitWrapper<'a> {
    repo: &'a str,
}

impl<'a> View for GitWrapper<'a> {
    type V = Seq<char>;

    closed spec fn view(&self) -> Seq<char> {
        self.repo@
    }
}

impl<'a> GitWrapper<'a> {
    pub fn new(repo: &'a str) -> (r: GitWrapper<'a>)
        ensures
            r@ == repo@,
    {
        GitWrapper { repo }
    }

    /// The plan that brings `repo` up to date: see [`GitWrapper::try_clone`].
    pub fn clone(repo: &String, present: &Vec<String>, stash_first: bool) -> (r: Result<
        Vec<GitCommand>,
        RepoFailure,
    >)
        ensures
            plan_matches(r, clone_or_pull_steps(repo@, present.deep_view(), stash_first)),
    {
        GitWrapper::new(repo.as_str()).try_clone(present, stash_first)
    }

    /// The plan that updates the workspace of `repo`: see [`GitWrapper::try_pull`].
    pub fn pull(repo: &String, stash_first: bool) -> (r: Result<Vec<GitCommand>, RepoFailure>)
        ensures
            plan_matches(
                r,
                match workspace_name_of(repo@) {
                    None => None,
                    Some(dir) => Some(pull_steps(dir, stash_first)),
                },
            ),
    {
        GitWrapper::new(repo.as_str()).try_pull(stash_first)
    }

    /// The repository's name: the last path segment of its URL without a
    /// trailing `.git`, or `None` where the reference is no URL with a path.
    pub fn get_repo_name(&self) -> (r: Option<String>)
        ensures
            r.deep_view() == repo_name_of(self@),
    {
        repo_name(self.repo)
    }

    /// The workspace directory: the repository's name where it is not empty.
    pub fn workspace_name(&self) -> (r: Result<String, RepoFailure>)
        ensures
            match r {
                Ok(n) => workspace_name_of(self@) == Some(n@),
                Err(e) => workspace_name_of(self@) is None && e
                    == RepoFailure::InvalidRepositoryReference,
            },
    {
        match self.get_repo_name() {
            Some(n) => {
                if n.as_str().is_empty() {
                    Err(RepoFailure::InvalidRepositoryReference)
                } else {
                    Ok(n)
                }
            },
            None => Err(RepoFailure::InvalidRepositoryReference),
        }
    }

    /// The plan that brings the repository up to date, where the directories
    /// in `present` exist: a pull where its workspace is one of them, a clone
    /// into its workspace otherwise.
    pub fn try_clone(&self, present: &Vec<String>, stash_first: bool) -> (r: Result<
        Vec<GitCommand>,
        RepoFailure,
    >)
        ensures
            plan_matches(r, clone_or_pull_steps(self@, present.deep_view(), stash_first)),
    {
        let dir = match self.workspace_name() {
            Ok(n) => n,
            Err(e) => return Err(e),
        };
        if contains_name(present, &dir) {
            self.try_pull(stash_first)
        } else {
            let c = self.done_clone();
            match c {
                Ok(c) => {
                    let r = vec![c];
                    assert(steps_of(r@) =~= seq![GitStep::Clone { repo: self@, dir: dir@ }]);
                    Ok(r)
                },
                Err(e) => Err(e),
            }
        }
    }

    /// The clone of the repository into its workspace directory.
    pub fn done_clone(&self) -> (r: Result<GitCommand, RepoFailure>)
        ensures
            match r {
                Ok(c) => workspace_name_of(self@) matches Some(dir) && c@ == (GitStep::Clone {
                    repo: self@,
                    dir,
                }),
                Err(e) => workspace_name_of(self@) is None && e
                    == RepoFailure::InvalidRepositoryReference,
            },
    {
        match self.workspace_name() {
            Ok(dir) => Ok(GitCommand::Clone { repo: self.repo.to_owned(), dir }),
            Err(e) => Err(e),
        }
    }

    /// The stash of the local changes in the repository's workspace.
    pub fn try_clean(&self) -> (r: Result<GitCommand, RepoFailure>)
        ensures
            match r {
                Ok(c) => workspace_name_of(self@) matches Some(dir) && c@ == (GitStep::Stash {
                    dir,
                }),
                Err(e) => workspace_name_of(self@) is None && e
                    == RepoFailure::InvalidRepositoryReference,
            },
    {
        match self.workspace_name() {
            Ok(dir) => Ok(GitCommand::Stash { dir }),
            Err(e) => Err(e),
        }
    }

    /// The update of the repository's workspace: a pull, after a stash of the
    /// local changes where `stash_first` asks for it.
    pub fn try_pull(&self, stash_first: bool) -> (r: Result<Vec<GitCommand>, RepoFailure>)
        ensures
            plan_matches(
                r,
                match workspace_name_of(self@) {
                    None => None,
                    Some(dir) => Some(pull_steps(dir, stash_first)),
                },
            ),
    {
        let dir = match self.workspace_name() {
            Ok(n) => n,
            Err(e) => return Err(e),
        };
        let mut r: Vec<GitCommand> = Vec::new();
        if stash_first {
            match self.try_clean() {
                Ok(c) => r.push(c),
                Err(e) => return Err(e),
            }
        }
        r.push(GitCommand::Pull { dir });
        assert(steps_of(r@) =~= pull_steps(workspace_name_of(self@)->0, stash_first));
        Ok(r)
    }
}

/// Running the plan of a repository twice, from a state where its workspace
/// is absent and with the first run succeeding, clones once and then pulls:
/// the second plan holds no clone.
pub proof fn lemma_clone_then_pull(repo: Seq<char>, present: Seq<Seq<char>>, stash_first: bool)
    requires
        workspace_name_of(repo) is Some,
        !present.contains(workspace_name_of(repo)->0),
    ensures
        ({
            let dir = workspace_name_of(repo)->0;
            let first = clone_or_pull_steps(repo, present, stash_first)->0;
            &&& first == seq![GitStep::Clone { repo, dir }]
            &&& clone_or_pull_steps(repo, after_steps(present, first), stash_first) == Some(
                pull_steps(dir, stash_first),
            )
            &&& forall|i: int|
                0 <= i < pull_steps(dir, stash_first).len() ==> !(pull_steps(
                    dir,
                    stash_first,
                )[i] is Clone)
        }),
{
    let dir = workspace_name_of(repo)->0;
    let first = seq![GitStep::Clone { repo, dir }];
    assert(first.drop_last() =~= Seq::<GitStep>::empty());
    assert(after_steps(present, first.drop_last()) == present);
    assert(after_steps(present, first) == present.push(dir));
    assert(present.push(dir)[present.len() as int] == dir);
}

} // verus!
