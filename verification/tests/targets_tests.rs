use git_ranger::commands::sync::should_sync_repo;
use git_ranger::config::{
    EnvString, Environment, GitLabProvider, GroupConfig, Groups, Providers, RangerConfig,
    RepoConfig,
};
use git_ranger::discovery::{discover_gitlab_repos, DiscoveryAction, GroupDiscovery};
use git_ranger::providers::gitlab::{GitLabError, GitLabProject};
use git_ranger::targets::{
    analyze_repo, convert_gitlab_project_to_repo_config, convert_group_projects, discover_repos,
    git_dir_to_probe, repos_to_sync, select_groups, should_discover_group, subgroups_of,
    RepoSyncInfo,
};
use git_ranger::workspace::Workspace;

fn project(id: u64, namespace_path: &str) -> GitLabProject {
    let name = namespace_path.rsplit('/').next().unwrap().to_string();
    GitLabProject {
        id,
        name: name.clone(),
        path: name,
        path_with_namespace: namespace_path.to_string(),
        ssh_url_to_repo: format!("git@gitlab.example.com:{}.git", namespace_path),
        http_url_to_repo: format!("https://gitlab.example.com/{}.git", namespace_path),
    }
}

fn group(name: &str, local_dir: Option<&str>, recursive: bool) -> GroupConfig {
    GroupConfig { name: name.to_string(), local_dir: local_dir.map(str::to_string), recursive }
}

fn repo(url: &str, local_dir: Option<&str>) -> RepoConfig {
    RepoConfig { url: url.to_string(), local_dir: local_dir.map(str::to_string) }
}

fn manifest(token: Option<&str>, groups: Vec<GroupConfig>, repos: Vec<RepoConfig>) -> RangerConfig {
    RangerConfig {
        providers: Providers {
            gitlab: token.map(|token| GitLabProvider {
                host: "https://gitlab.example.com".to_string(),
                token: EnvString::new(token.to_string()),
            }),
            github: None,
        },
        groups: Groups { gitlab: groups, github: Vec::new() },
        repos,
    }
}

fn connect(discovery: GroupDiscovery) -> GroupDiscovery {
    assert_eq!(
        discovery.next_action(),
        DiscoveryAction::Connect {
            host: "https://gitlab.example.com".to_string(),
            token: "test-token".to_string(),
        }
    );
    discovery.connected(Ok(()))
}

#[test]
fn test_should_sync_repo_all() {
    let repo = RepoConfig {
        url: "https://github.com/example/test.git".to_string(),
        local_dir: None,
    };

    assert!(should_sync_repo(&repo, &None));
}

#[test]
fn test_should_sync_repo_with_matching_target() {
    let repo = RepoConfig {
        url: "https://github.com/example/test.git".to_string(),
        local_dir: None,
    };

    assert!(should_sync_repo(&repo, &Some("example".to_string())));
}

#[test]
fn test_should_sync_repo_with_non_matching_target() {
    let repo = RepoConfig {
        url: "https://github.com/example/test.git".to_string(),
        local_dir: None,
    };

    assert!(!should_sync_repo(&repo, &Some("other".to_string())));
}

#[test]
fn filter_matches_anywhere_in_the_text() {
    let repo = repo("https://github.com/example/test.git", None);
    assert!(should_sync_repo(&repo, &Some("".to_string())));
    assert!(should_sync_repo(&repo, &Some("https".to_string())));
    assert!(should_sync_repo(&repo, &Some(".git".to_string())));
    assert!(should_sync_repo(&repo, &Some("https://github.com/example/test.git".to_string())));
    assert!(!should_sync_repo(&repo, &Some("https://github.com/example/test.git/".to_string())));
    assert!(!should_sync_repo(&repo, &Some("Example".to_string())));
}

#[test]
fn group_filter_goes_by_the_name() {
    let team = group("my-org/my-team", Some("team-projects"), true);
    assert!(should_discover_group(&team, &None));
    assert!(should_discover_group(&team, &Some("my-team".to_string())));
    assert!(!should_discover_group(&team, &Some("team-projects".to_string())));
}

#[test]
fn select_groups_keeps_the_order() {
    let groups = vec![group("a/one", None, false), group("b/two", None, true), group("a/three", None, false)];
    let selected = select_groups(&groups, &Some("a/".to_string()));
    assert_eq!(selected, vec![group("a/one", None, false), group("a/three", None, false)]);
    assert_eq!(select_groups(&groups, &None), groups);
}

#[test]
fn project_directly_in_the_group_goes_to_the_group_dir() {
    let entry = convert_gitlab_project_to_repo_config(
        &project(1, "team/sub/alpha"),
        "team/sub",
        &Some("out".to_string()),
    );
    assert_eq!(entry, repo("git@gitlab.example.com:team/sub/alpha.git", Some("out")));
}

#[test]
fn project_in_a_subgroup_goes_below_the_group_dir() {
    let entry = convert_gitlab_project_to_repo_config(
        &project(2, "team/sub/subgrp/beta"),
        "team/sub",
        &Some("out".to_string()),
    );
    assert_eq!(entry, repo("git@gitlab.example.com:team/sub/subgrp/beta.git", Some("out/subgrp")));
    let deep = convert_gitlab_project_to_repo_config(
        &project(3, "mygroup/subgroup1/nested/repo-in-nested"),
        "mygroup",
        &Some("dir".to_string()),
    );
    assert_eq!(deep.local_dir, Some("dir/subgroup1/nested".to_string()));
}

#[test]
fn project_in_a_subgroup_of_a_group_without_dir_keeps_its_nesting() {
    let entry =
        convert_gitlab_project_to_repo_config(&project(2, "team/sub/subgrp/beta"), "team/sub", &None);
    assert_eq!(entry.local_dir, Some("subgrp".to_string()));
    let deep = convert_gitlab_project_to_repo_config(
        &project(3, "mygroup/subgroup1/nested/repo-in-nested"),
        "mygroup",
        &None,
    );
    assert_eq!(deep.local_dir, Some("subgroup1/nested".to_string()));
}

#[test]
fn project_directly_in_a_group_without_dir_gets_none() {
    let entry = convert_gitlab_project_to_repo_config(&project(1, "team/sub/alpha"), "team/sub", &None);
    assert_eq!(entry.local_dir, None);
    let outside = convert_gitlab_project_to_repo_config(&project(1, "teams/x/alpha"), "team", &None);
    assert_eq!(outside.local_dir, None);
}

#[test]
fn projects_of_one_name_in_two_subgroups_have_two_places() {
    let entries = convert_group_projects(
        &vec![project(1, "team/sub/a/x"), project(2, "team/sub/b/x")],
        "team/sub",
        &None,
    );
    let workspace = Workspace::new();
    let first = analyze_repo(&entries[0], "base", &workspace);
    let second = analyze_repo(&entries[1], "base", &workspace);
    assert_eq!(first.local_path, "base/a/x");
    assert_eq!(second.local_path, "base/b/x");
}

#[test]
fn subgroups_are_what_stands_between_group_and_project() {
    assert_eq!(subgroups_of("team/sub/subgrp/beta", "team/sub"), Some("subgrp".to_string()));
    assert_eq!(subgroups_of("team/a/b/c", "team"), Some("a/b".to_string()));
    assert_eq!(subgroups_of("team/alpha", "team"), None);
    assert_eq!(subgroups_of("teams/a/alpha", "team"), None);
    assert_eq!(subgroups_of("team", "team"), None);
    assert_eq!(subgroups_of("team//alpha", "team"), Some("".to_string()));
}

#[test]
fn project_outside_the_group_goes_to_the_group_dir() {
    let entry = convert_gitlab_project_to_repo_config(
        &project(2, "teams/sub/beta"),
        "team",
        &Some("out".to_string()),
    );
    assert_eq!(entry.local_dir, Some("out".to_string()));
    let same = convert_gitlab_project_to_repo_config(
        &project(2, "team"),
        "team",
        &Some("out".to_string()),
    );
    assert_eq!(same.local_dir, Some("out".to_string()));
}

#[test]
fn group_projects_convert_in_order() {
    let entries = convert_group_projects(
        &vec![project(1, "g/a"), project(2, "g/s/b")],
        "g",
        &Some("d".to_string()),
    );
    assert_eq!(
        entries,
        vec![
            repo("git@gitlab.example.com:g/a.git", Some("d")),
            repo("git@gitlab.example.com:g/s/b.git", Some("d/s")),
        ]
    );
}

#[test]
fn analyze_repo_names_places_and_classifies() {
    let mut workspace = Workspace::new();
    workspace.add("/base/existing/existing-repo/.git".to_string());
    let existing = analyze_repo(
        &repo("https://github.com/example/existing-repo.git", Some("existing")),
        "/base",
        &workspace,
    );
    assert_eq!(
        existing,
        RepoSyncInfo {
            url: "https://github.com/example/existing-repo.git".to_string(),
            name: "existing-repo".to_string(),
            local_path: "/base/existing/existing-repo".to_string(),
            exists: true,
        }
    );
    let missing =
        analyze_repo(&repo("https://github.com/example/other.git", None), "/base", &workspace);
    assert_eq!(missing.local_path, "/base/other");
    assert!(!missing.exists);
}

#[test]
fn probe_path_is_the_git_dir_of_the_local_path() {
    assert_eq!(
        git_dir_to_probe(&repo("git@github.com:example/standalone.git", Some("standalone")), "/w"),
        "/w/standalone/standalone/.git"
    );
    assert_eq!(
        git_dir_to_probe(&repo("git@github.com:example/standalone.git", Some("/abs")), "/w"),
        "/abs/standalone/.git"
    );
}

#[test]
fn work_list_has_standalone_entries_first_and_keeps_duplicates() {
    let config = manifest(
        None,
        Vec::new(),
        vec![
            repo("https://host/one/a.git", None),
            repo("https://host/two/b.git", None),
            repo("https://host/one/c.git", Some("d")),
        ],
    );
    let discovered = vec![repo("https://host/one/a.git", None), repo("https://host/zzz/q.git", None)];
    let entries = repos_to_sync(&config, &Some("one".to_string()), &discovered);
    assert_eq!(
        entries,
        vec![
            repo("https://host/one/a.git", None),
            repo("https://host/one/c.git", Some("d")),
            repo("https://host/one/a.git", None),
            repo("https://host/zzz/q.git", None),
        ]
    );
}

#[test]
fn discovery_without_provider_is_over_at_once() {
    let config = manifest(None, vec![group("g", None, false)], Vec::new());
    let discovery = discover_gitlab_repos(&config, &None, &Environment::new());
    assert!(discovery.is_done());
    assert_eq!(discovery.next_action(), DiscoveryAction::Done);
    assert_eq!(discovery.finish(), (Vec::new(), Vec::new()));
}

#[test]
fn discovery_with_unresolved_token_warns_and_skips_all_groups() {
    let config = manifest(
        Some("${GITLAB_TOKEN}"),
        vec![group("g", None, false), group("h", None, false)],
        Vec::new(),
    );
    let discovery = discover_gitlab_repos(&config, &None, &Environment::new());
    assert!(discovery.is_done());
    let (entries, warnings) = discovery.finish();
    assert_eq!(entries, Vec::new());
    assert_eq!(
        warnings,
        vec![
            "Warning: Failed to resolve GitLab token: Environment variable 'GITLAB_TOKEN' is not set",
            "         Skipping GitLab groups",
        ]
    );
}

#[test]
fn discovery_with_empty_token_is_over_without_warning() {
    let config = manifest(Some(""), vec![group("g", None, false)], Vec::new());
    let discovery = discover_gitlab_repos(&config, &None, &Environment::new());
    assert!(discovery.is_done());
    assert_eq!(discovery.finish(), (Vec::new(), Vec::new()));
}

#[test]
fn discovery_resolves_the_token_from_the_environment() {
    let config = manifest(Some("${GITLAB_TOKEN}"), vec![group("g", None, false)], Vec::new());
    let mut env = Environment::new();
    env.set("GITLAB_TOKEN".to_string(), "test-token".to_string());
    let discovery = connect(discover_gitlab_repos(&config, &None, &env));
    assert_eq!(
        discovery.next_action(),
        DiscoveryAction::List { group_path: "g".to_string(), recursive: false }
    );
}

#[test]
fn discovery_with_failed_connection_warns_and_skips_all_groups() {
    let config = manifest(Some("test-token"), vec![group("g", None, false)], Vec::new());
    let discovery = discover_gitlab_repos(&config, &None, &Environment::new());
    let discovery =
        discovery.connected(Err(GitLabError::RequestFailed("builder error".to_string())));
    assert!(discovery.is_done());
    let (entries, warnings) = discovery.finish();
    assert_eq!(entries, Vec::new());
    assert_eq!(
        warnings,
        vec![
            "Warning: Failed to create GitLab client: HTTP request failed: builder error",
            "         Skipping GitLab groups",
        ]
    );
}

#[test]
fn discovery_lists_the_selected_groups_in_order() {
    let config = manifest(
        Some("test-token"),
        vec![group("a/one", Some("x"), false), group("b/two", None, true), group("a/three", None, true)],
        Vec::new(),
    );
    let discovery =
        connect(discover_gitlab_repos(&config, &Some("a/".to_string()), &Environment::new()));
    assert_eq!(
        discovery.next_action(),
        DiscoveryAction::List { group_path: "a/one".to_string(), recursive: false }
    );
    let discovery = discovery.listed(Ok(vec![project(1, "a/one/p"), project(2, "a/one/s/q")]));
    assert!(!discovery.is_done());
    assert_eq!(
        discovery.next_action(),
        DiscoveryAction::List { group_path: "a/three".to_string(), recursive: true }
    );
    let discovery = discovery.listed(Ok(vec![project(3, "a/three/r")]));
    assert!(discovery.is_done());
    let (entries, warnings) = discovery.finish();
    assert_eq!(
        entries,
        vec![
            repo("git@gitlab.example.com:a/one/p.git", Some("x")),
            repo("git@gitlab.example.com:a/one/s/q.git", Some("x/s")),
            repo("git@gitlab.example.com:a/three/r.git", None),
        ]
    );
    assert_eq!(warnings, Vec::<String>::new());
}

#[test]
fn discovery_skips_only_the_group_that_failed() {
    let config = manifest(
        Some("test-token"),
        vec![group("one", None, false), group("two", None, false), group("three", None, false)],
        Vec::new(),
    );
    let discovery = connect(discover_gitlab_repos(&config, &None, &Environment::new()));
    let discovery = discovery.listed(Ok(vec![project(1, "one/p")]));
    let discovery = discovery.listed(Err(GitLabError::GroupNotFound("two".to_string())));
    assert!(!discovery.is_done());
    let discovery = discovery.listed(Ok(vec![project(3, "three/r")]));
    assert!(discovery.is_done());
    let (entries, warnings) = discovery.finish();
    assert_eq!(
        entries,
        vec![
            repo("git@gitlab.example.com:one/p.git", None),
            repo("git@gitlab.example.com:three/r.git", None),
        ]
    );
    assert_eq!(
        warnings,
        vec!["Warning: Failed to get projects for group 'two': Group not found: two"]
    );
}

#[test]
fn discovery_without_selected_group_is_over_after_the_connection() {
    let config = manifest(Some("test-token"), vec![group("one", None, false)], Vec::new());
    let discovery = discover_gitlab_repos(&config, &Some("zzz".to_string()), &Environment::new());
    assert!(!discovery.is_done());
    let discovery = connect(discovery);
    assert!(discovery.is_done());
}

#[test]
fn discovery_ignores_reports_it_does_not_wait_for() {
    let config = manifest(Some("test-token"), vec![group("one", None, false)], Vec::new());
    let discovery = discover_gitlab_repos(&config, &None, &Environment::new());
    let discovery = discovery.listed(Ok(vec![project(1, "one/p")]));
    assert_eq!(
        discovery.next_action(),
        DiscoveryAction::Connect {
            host: "https://gitlab.example.com".to_string(),
            token: "test-token".to_string(),
        }
    );
    let discovery = discovery.connected(Ok(())).connected(Err(GitLabError::RequestFailed("late".to_string())));
    assert_eq!(
        discovery.next_action(),
        DiscoveryAction::List { group_path: "one".to_string(), recursive: false }
    );
    let discovery = discovery.listed(Ok(Vec::new()));
    let discovery = discovery.listed(Ok(vec![project(1, "one/p")]));
    assert_eq!(discovery.finish(), (Vec::new(), Vec::new()));
}

#[test]
fn end_to_end_targets_of_a_repo_and_a_group() {
    let config = manifest(
        Some("test-token"),
        vec![group("team/sub", Some("out"), true)],
        vec![repo("https://host/x/not-yet-cloned.git", None)],
    );
    let discovery = connect(discover_gitlab_repos(&config, &None, &Environment::new()));
    assert_eq!(
        discovery.next_action(),
        DiscoveryAction::List { group_path: "team/sub".to_string(), recursive: true }
    );
    let discovery = discovery
        .listed(Ok(vec![project(1, "team/sub/alpha"), project(2, "team/sub/subgrp/beta")]));
    let (discovered, warnings) = discovery.finish();
    assert!(warnings.is_empty());
    let repos = discover_repos(&config, "base", &None, &discovered, &Workspace::new());
    let summary: Vec<(&str, &str, bool)> = repos
        .iter()
        .map(|repo| (repo.name.as_str(), repo.local_path.as_str(), repo.exists))
        .collect();
    assert_eq!(
        summary,
        vec![
            ("not-yet-cloned", "base/not-yet-cloned", false),
            ("alpha", "base/out/alpha", false),
            ("beta", "base/out/subgrp/beta", false),
        ]
    );
}

#[test]
fn listings_taken_in_at_once_expand_every_group() {
    let config = manifest(
        Some("test-token"),
        vec![group("one", Some("x"), false), group("two", None, false), group("three", None, false)],
        Vec::new(),
    );
    let discovery = connect(discover_gitlab_repos(&config, &None, &Environment::new()));
    let discovery = discovery.listed_all(vec![
        Ok(vec![project(1, "one/p")]),
        Err(GitLabError::AuthenticationFailed("Invalid or expired token".to_string())),
        Ok(vec![project(3, "three/s/r")]),
        Ok(vec![project(4, "late/q")]),
    ]);
    assert!(discovery.is_done());
    let (entries, warnings) = discovery.finish();
    assert_eq!(
        entries,
        vec![
            repo("git@gitlab.example.com:one/p.git", Some("x")),
            repo("git@gitlab.example.com:three/s/r.git", Some("s")),
        ]
    );
    assert_eq!(
        warnings,
        vec![
            "Warning: Failed to get projects for group 'two': Authentication failed: Invalid or expired token"
        ]
    );
}
