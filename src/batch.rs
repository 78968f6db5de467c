//! The batch over a manifest: validation before dispatch, one plan per
//! repository, and one outcome per repository once every unit has finished.
use vstd::prelude::*;
use crate::resolve::workspace_name_of;
use crate::git_wrapper::{clone_or_pull_steps, plan_matches, GitCommand, GitWrapper, RepoFailure};

verus! {

/// Why a manifest cannot be used.
#[derive(Clone, Copy, Debug, PartialEq, Eq, Structural)]
pub enum ManifestError {
    /// The distinct references at `first` and `second` resolve to the same
    /// workspace name.
    WorkspaceCollision { first: usize, second: usize },
    /// Organization and token are not both given.
    MissingCredentials,
}

/// The references at `i` and `j` differ and share a workspace name.
pub open spec fn collides(repos: Seq<Seq<char>>, i: int, j: int) -> bool {
    &&& repos[i] != repos[j]
    &&& workspace_name_of(repos[i]) is Some
    &&& workspace_name_of(repos[i]) == workspace_name_of(repos[j])
}

/// Two distinct references of `repos` resolve to the same workspace name.
pub open spec fn has_collision(repos: Seq<Seq<char>>) -> bool {
    exists|i: int, j: int| 0 <= i < j < repos.len() && collides(repos, i, j)
}

/// The workspace names of `repos`, `None` for a reference that has none.
fn workspace_names(repos: &Vec<String>) -> (r: Vec<Option<String>>)
    ensures
        r.len() == repos.len(),
        forall|k: int|
            0 <= k < repos.len() ==> (#[trigger] r.deep_view()[k]) == workspace_name_of(
                repos.deep_view()[k],
            ),
{
    let mut r: Vec<Option<String>> = Vec::new();
    let mut k: usize = 0;
    while k < repos.len()
        invariant
            k <= repos.len(),
            r.len() == k,
            forall|m: int|
                0 <= m < k ==> (#[trigger] r.deep_view()[m]) == workspace_name_of(
                    repos.deep_view()[m],
                ),
        decreases repos.len() - k,
    {
        let n = match GitWrapper::new(repos[k].as_str()).workspace_name() {
            Ok(n) => Some(n),
            Err(_) => None,
        };
        let ghost before = r.deep_view();
        r.push(n);
        assert(r.deep_view() =~= before.push(n.deep_view()));
        k += 1;
    }
    r
}

/// Checks a manifest before any work is dispatched: it fails where two
/// distinct references resolve to the same workspace name, and names the
/// first such pair (by the later index, then the earlier).
pub fn validate_manifest(repos: &Vec<String>) -> (r: Result<(), ManifestError>)
    ensures
        r is Ok <==> !has_collision(repos.deep_view()),
        r matches Err(e) ==> e matches ManifestError::WorkspaceCollision { first, second } && first
            < second < repos.len() && collides(repos.deep_view(), first as int, second as int),
{
    let names = workspace_names(repos);
    let ghost rv = repos.deep_view();
    let mut j: usize = 0;
    while j < repos.len()
        invariant
            j <= repos.len(),
            names.len() == repos.len(),
            rv == repos.deep_view(),
            forall|k: int| 0 <= k < repos.len() ==> (#[trigger] names.deep_view()[k]) == workspace_name_of(rv[k]),
            forall|a: int, b: int| 0 <= a < b < j ==> !collides(rv, a, b),
        decreases repos.len() - j,
    {
        let mut i: usize = 0;
        while i < j
            invariant
                i <= j < repos.len(),
                names.len() == repos.len(),
                rv == repos.deep_view(),
                forall|k: int| 0 <= k < repos.len() ==> (#[trigger] names.deep_view()[k]) == workspace_name_of(rv[k]),
                forall|a: int, b: int| 0 <= a < b < j ==> !collides(rv, a, b),
                forall|a: int| 0 <= a < i ==> !collides(rv, a, j as int),
            decreases j - i,
        {
            assert(names.deep_view()[i as int] == workspace_name_of(rv[i as int]));
            assert(names.deep_view()[j as int] == workspace_name_of(rv[j as int]));
            let same = match (&names[i], &names[j]) {
                (Some(a), Some(b)) => *a == *b,
                _ => false,
            };
            if same && repos[i] != repos[j] {
                assert(collides(rv, i as int, j as int));
                return Err(ManifestError::WorkspaceCollision { first: i, second: j });
            }
            i += 1;
        }
        j += 1;
    }
    Ok(())
}

/// The plans of all references of a manifest, in its order, where the
/// directories in `present` exist (see [`GitWrapper::try_clone`]).
pub fn plan_batch(repos: &Vec<String>, present: &Vec<String>, stash_first: bool) -> (r: Vec<
    Result<Vec<GitCommand>, RepoFailure>,
>)
    ensures
        r.len() == repos.len(),
        forall|k: int|
            0 <= k < repos.len() ==> plan_matches(
                #[trigger] r@[k],
                clone_or_pull_steps(repos.deep_view()[k], present.deep_view(), stash_first),
            ),
{
    let mut r: Vec<Result<Vec<GitCommand>, RepoFailure>> = Vec::new();
    let mut k: usize = 0;
    while k < repos.len()
        invariant
            k <= repos.len(),
            r.len() == k,
            forall|m: int|
                0 <= m < k ==> plan_matches(
                    #[trigger] r@[m],
                    clone_or_pull_steps(repos.deep_view()[m], present.deep_view(), stash_first),
                ),
        decreases repos.len() - k,
    {
        let p = GitWrapper::clone(&repos[k], present, stash_first);
        r.push(p);
        k += 1;
    }
    r
}

/// What became of one repository of a batch.
#[derive(Debug)]
pub struct Outcome {
    pub repo: String,
    pub result: Result<(), RepoFailure>,
}

/// The outcomes of a batch, one per reference of the manifest, in its order.
#[derive(Debug)]
pub struct BatchResult {
    pub outcomes: Vec<Outcome>,
}

/// The failure of a plan, if it failed.
pub open spec fn plan_fault(plan: Result<Vec<GitCommand>, RepoFailure>) -> Option<RepoFailure> {
    match plan {
        Ok(_) => None,
        Err(e) => Some(e),
    }
}

/// The result of one unit: the failure of its plan, if any; else whether its
/// commands ran through.
pub open spec fn unit_result(fault: Option<RepoFailure>, ran: bool) -> Result<(), RepoFailure> {
    match fault {
        Some(e) => Err(e),
        None => if ran {
            Ok(())
        } else {
            Err(RepoFailure::ExecutorFailure)
        },
    }
}

/// The number of failed outcomes.
pub open spec fn failures(s: Seq<Outcome>) -> nat
    decreases s.len(),
{
    if s.len() == 0 {
        0
    } else {
        failures(s.drop_last()) + if s.last().result is Err {
            1nat
        } else {
            0nat
        }
    }
}

/// The number of `false` entries.
pub open spec fn count_false(s: Seq<bool>) -> nat
    decreases s.len(),
{
    if s.len() == 0 {
        0
    } else {
        count_false(s.drop_last()) + if s.last() {
            0nat
        } else {
            1nat
        }
    }
}

/// The outcome of each reference, once every unit has finished: `plans[k]`
/// is the plan of `repos[k]`, and `ran[k]` tells whether its commands all
/// succeeded (it is not read where the plan failed). Every reference gets
/// exactly one outcome.
pub fn record_outcomes(
    repos: &Vec<String>,
    plans: &Vec<Result<Vec<GitCommand>, RepoFailure>>,
    ran: &Vec<bool>,
) -> (r: BatchResult)
    requires
        plans.len() == repos.len(),
        ran.len() == repos.len(),
    ensures
        r.outcomes.len() == repos.len(),
        forall|k: int|
            0 <= k < repos.len() ==> (#[trigger] r.outcomes@[k]).repo@ == repos@[k]@
                && r.outcomes@[k].result == unit_result(plan_fault(plans@[k]), ran@[k]),
{
    let mut outcomes: Vec<Outcome> = Vec::new();
    let mut k: usize = 0;
    while k < repos.len()
        invariant
            k <= repos.len(),
            plans.len() == repos.len(),
            ran.len() == repos.len(),
            outcomes.len() == k,
            forall|m: int|
                0 <= m < k ==> (#[trigger] outcomes@[m]).repo@ == repos@[m]@
                    && outcomes@[m].result == unit_result(plan_fault(plans@[m]), ran@[m]),
        decreases repos.len() - k,
    {
        let result = match &plans[k] {
            Err(e) => Err(*e),
            Ok(_) => if ran[k] {
                Ok(())
            } else {
                Err(RepoFailure::ExecutorFailure)
            },
        };
        outcomes.push(Outcome { repo: repos[k].clone(), result });
        k += 1;
    }
    BatchResult { outcomes }
}

impl BatchResult {
    /// The number of repositories whose work failed.
    pub fn failure_count(&self) -> (r: usize)
        ensures
            r == failures(self.outcomes@),
    {
        let mut count: usize = 0;
        let mut k: usize = 0;
        while k < self.outcomes.len()
            invariant
                k <= self.outcomes.len(),
                count <= k,
                count == failures(self.outcomes@.take(k as int)),
            decreases self.outcomes.len() - k,
        {
            assert(self.outcomes@.take(k + 1).drop_last() =~= self.outcomes@.take(k as int));
            if self.outcomes[k].result.is_err() {
                count += 1;
            }
            k += 1;
        }
        assert(self.outcomes@.take(k as int) =~= self.outcomes@);
        count
    }
}

/// Where every reference of a batch was planned, the failures recorded are
/// exactly the units whose commands failed, whatever order they ran in.
pub proof fn lemma_failures_match_injected(
    plans: Seq<Result<Vec<GitCommand>, RepoFailure>>,
    ran: Seq<bool>,
    outcomes: Seq<Outcome>,
)
    requires
        plans.len() == ran.len(),
        outcomes.len() == ran.len(),
        forall|k: int| 0 <= k < plans.len() ==> (#[trigger] plans[k]) is Ok,
        forall|k: int|
            0 <= k < ran.len() ==> (#[trigger] outcomes[k]).result == unit_result(
                plan_fault(plans[k]),
                ran[k],
            ),
    ensures
        failures(outcomes) == count_false(ran),
    decreases ran.len(),
{
    if ran.len() > 0 {
        let p = plans.drop_last();
        let o = outcomes.drop_last();
        let b = ran.drop_last();
        assert forall|k: int| 0 <= k < p.len() implies (#[trigger] p[k]) is Ok by {
            assert(p[k] == plans[k]);
        }
        assert forall|k: int| 0 <= k < b.len() implies (#[trigger] o[k]).result == unit_result(
            plan_fault(p[k]),
            b[k],
        ) by {
            assert(o[k] == outcomes[k]);
            assert(p[k] == plans[k]);
        }
        lemma_failures_match_injected(p, b, o);
        assert(outcomes.last() == outcomes[ran.len() - 1]);
        assert(plans[ran.len() - 1] is Ok);
    }
}

/// A reference without a workspace name fails closed: its unit is recorded
/// as an invalid reference, whatever the executor reported.
pub proof fn lemma_unresolvable_fails_closed(
    plan: Result<Vec<GitCommand>, RepoFailure>,
    repo: Seq<char>,
    present: Seq<Seq<char>>,
    stash_first: bool,
    ran: bool,
)
    requires
        plan_matches(plan, clone_or_pull_steps(repo, present, stash_first)),
        workspace_name_of(repo) is None,
    ensures
        unit_result(plan_fault(plan), ran) == Err::<(), RepoFailure>(
            RepoFailure::InvalidRepositoryReference,
        ),
{
}

} // verus!
