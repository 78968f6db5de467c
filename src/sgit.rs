//! The manifest: the repositories to work on, and the optional organization
//! and token from which the list can be generated.
use vstd::prelude::*;
use crate::batch::{has_collision, validate_manifest, collides, ManifestError};

verus! {

/// A manifest. Its text form is read and written by the caller.
#[derive(Debug)]
pub struct Sgit {
    pub repos: Vec<String>,
    pub organization: Option<String>,
    pub token: Option<String>,
}

/// The present entries of `s`, in order.
pub open spec fn present_entries(s: Seq<Option<Seq<char>>>) -> Seq<Seq<char>>
    decreases s.len(),
{
    if s.len() == 0 {
        Seq::empty()
    } else {
        let rest = present_entries(s.drop_last());
        match s.last() {
            Some(x) => rest.push(x),
            None => rest,
        }
    }
}

fn clone_opt(o: &Option<String>) -> (r: Option<String>)
    ensures
        r.deep_view() == o.deep_view(),
{
    match o {
        Some(s) => Some(s.clone()),
        None => None,
    }
}

impl Sgit {
    /// A manifest of `repos`, with neither organization nor token.
    pub fn new(repos: Vec<String>) -> (r: Sgit)
        ensures
            r.repos == repos,
            r.organization is None,
            r.token is None,
    {
        Sgit { repos, organization: None, token: None }
    }

    /// The organization and the token that generating the repository list
    /// needs; fails unless both are given.
    pub fn credentials(&self) -> (r: Result<(String, String), ManifestError>)
        ensures
            match r {
                Ok((org, token)) => self.organization.deep_view() == Some(org@)
                    && self.token.deep_view() == Some(token@),
                Err(e) => (self.organization is None || self.token is None) && e
                    == ManifestError::MissingCredentials,
            },
    {
        match (&self.organization, &self.token) {
            (Some(org), Some(token)) => Ok((org.clone(), token.clone())),
            _ => Err(ManifestError::MissingCredentials),
        }
    }

    /// The manifest with its repository list replaced by the clone URLs that
    /// were listed, in order, skipping the repositories that had none; the
    /// organization and token are kept.
    pub fn with_fetched_repos(&self, fetched: &Vec<Option<String>>) -> (r: Sgit)
        ensures
            r.repos.deep_view() == present_entries(fetched.deep_view()),
            r.organization.deep_view() == self.organization.deep_view(),
            r.token.deep_view() == self.token.deep_view(),
    {
        let mut repos: Vec<String> = Vec::new();
        let mut k: usize = 0;
        while k < fetched.len()
            invariant
                k <= fetched.len(),
                repos.deep_view() == present_entries(fetched.deep_view().take(k as int)),
            decreases fetched.len() - k,
        {
            let ghost before = repos.deep_view();
            assert(fetched.deep_view().take(k + 1).drop_last() =~= fetched.deep_view().take(
                k as int,
            ));
            match &fetched[k] {
                Some(u) => {
                    repos.push(u.clone());
                    assert(repos.deep_view() =~= before.push(u@));
                },
                None => {},
            }
            k += 1;
        }
        assert(fetched.deep_view().take(k as int) =~= fetched.deep_view());
        Sgit {
            repos,
            organization: clone_opt(&self.organization),
            token: clone_opt(&self.token),
        }
    }

    /// Checks the manifest before dispatch: see [`validate_manifest`].
    pub fn validate(&self) -> (r: Result<(), ManifestError>)
        ensures
            r is Ok <==> !has_collision(self.repos.deep_view()),
            r matches Err(e) ==> e matches ManifestError::WorkspaceCollision { first, second }
                && first < second < self.repos.len() && collides(
                self.repos.deep_view(),
                first as int,
                second as int,
            ),
    {
        validate_manifest(&self.repos)
    }
}

} // verus!
