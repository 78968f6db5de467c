use sgit::{plan_batch, record_outcomes, validate_manifest, ManifestError, RepoFailure, Sgit};

#[test]
fn collision_is_rejected() {
    let repos = vec!["https://host/org/repo.git".to_string(), "https://host/other/repo.git".to_string()];
    assert_eq!(validate_manifest(&repos), Err(ManifestError::WorkspaceCollision { first: 0, second: 1 }));
    assert_eq!(Sgit::new(repos).validate(), Err(ManifestError::WorkspaceCollision { first: 0, second: 1 }));
}

#[test]
fn distinct_names_are_accepted() {
    let repos = vec![
        "https://host/org/a.git".to_string(),
        "https://host/org/b".to_string(),
        "https://host/org/a.git".to_string(),
        "not-a-url".to_string(),
    ];
    assert_eq!(validate_manifest(&repos), Ok(()));
}

#[test]
fn collision_names_first_pair() {
    let repos = vec![
        "https://host/x/a".to_string(),
        "https://host/x/b".to_string(),
        "https://host/y/b.git".to_string(),
        "https://host/y/a.git".to_string(),
    ];
    assert_eq!(validate_manifest(&repos), Err(ManifestError::WorkspaceCollision { first: 1, second: 2 }));
}

#[test]
fn invalid_reference_is_recorded() {
    let repos = vec!["just-a-name".to_string(), "https://host/org/ok.git".to_string()];
    let plans = plan_batch(&repos, &Vec::new(), false);
    let result = record_outcomes(&repos, &plans, &vec![true, true]);
    assert_eq!(result.outcomes.len(), 2);
    assert_eq!(result.outcomes[0].repo, "just-a-name");
    assert_eq!(result.outcomes[0].result, Err(RepoFailure::InvalidRepositoryReference));
    assert_eq!(result.outcomes[1].result, Ok(()));
    assert_eq!(result.failure_count(), 1);
}

#[test]
fn fifty_units_with_injected_failures() {
    let repos: Vec<String> = (0..50).map(|i| format!("https://host/org/repo{}.git", i)).collect();
    let plans = plan_batch(&repos, &Vec::new(), false);
    assert!(plans.iter().all(|p| p.is_ok()));
    let mut seed: u64 = 12345;
    let mut injected = 0;
    let mut ran = Vec::new();
    for _ in 0..50 {
        seed = seed.wrapping_mul(6364136223846793005).wrapping_add(1442695040888963407);
        let fail = (seed >> 33) % 10 == 0;
        if fail {
            injected += 1;
        }
        ran.push(!fail);
    }
    let result = record_outcomes(&repos, &plans, &ran);
    assert_eq!(result.outcomes.len(), 50);
    assert_eq!(result.failure_count(), injected);
    for (k, o) in result.outcomes.iter().enumerate() {
        assert_eq!(o.repo, repos[k]);
        assert_eq!(o.result.is_err(), !ran[k]);
    }
}

#[test]
fn batch_plans_follow_present_dirs() {
    let repos = vec!["https://host/org/a.git".to_string(), "https://host/org/b.git".to_string()];
    let plans = plan_batch(&repos, &vec!["b".to_string()], false);
    assert_eq!(plans[0].as_ref().unwrap()[0].args()[0], "clone");
    assert_eq!(plans[1].as_ref().unwrap()[0].args(), vec!["-C".to_string(), "b".to_string(), "pull".to_string()]);
}

#[test]
fn executor_failure_is_recorded() {
    let repos = vec!["https://host/org/a.git".to_string()];
    let plans = plan_batch(&repos, &Vec::new(), false);
    let result = record_outcomes(&repos, &plans, &vec![false]);
    assert_eq!(result.outcomes[0].result, Err(RepoFailure::ExecutorFailure));
    assert_eq!(result.failure_count(), 1);
}
