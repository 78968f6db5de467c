use sgit::GitConfig;

#[test]
fn parse_remote_url() {
    let url = GitConfig::remote_url_by_str(
        r#"
[remote "origin"]
	url = https://github.com/phodal/sgit
	fetch = +refs/heads/*:refs/remotes/origin/*
"#,
    );

    assert_eq!("https://github.com/phodal/sgit", url);
}

#[test]
fn remote_url_missing_origin_is_empty() {
    let url = GitConfig::remote_url_by_str("[core]\n\tbare = false\n");
    assert_eq!("", url);
}

#[test]
fn remote_url_other_remote_is_empty() {
    let url = GitConfig::remote_url_by_str("[remote \"upstream\"]\n\turl = https://host/a/b\n");
    assert_eq!("", url);
}

#[test]
fn discovery_keeps_only_configured_origin() {
    let configs = vec![
        "[core]\n\tbare = false\n".to_string(),
        "[remote \"origin\"]\n\turl = https://host/org/repo.git\n".to_string(),
    ];
    let found = GitConfig::try_load_git_config_by_paths(&configs);
    assert_eq!(found, vec!["https://host/org/repo.git".to_string()]);
}

#[test]
fn discovery_of_nothing_is_empty() {
    let found = GitConfig::try_load_git_config_by_paths(&Vec::new());
    assert!(found.is_empty());
}
