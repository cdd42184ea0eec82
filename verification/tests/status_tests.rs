use git_ranger::commands::status::{
    analyze_repo_status, load_config, status_command, RepoStatus, StatusError, StatusOptions,
    StatusReport,
};
use git_ranger::config::{
    ConfigLoadError, EnvString, GitLabProvider, GroupConfig, Groups, Providers, RangerConfig,
    RepoConfig,
};
use git_ranger::workspace::Workspace;

fn repo(url: &str, local_dir: Option<&str>) -> RepoConfig {
    RepoConfig { url: url.to_string(), local_dir: local_dir.map(str::to_string) }
}

fn config_of(repos: Vec<RepoConfig>) -> RangerConfig {
    RangerConfig { providers: Providers::default(), groups: Groups::default(), repos }
}

fn test_config() -> RangerConfig {
    RangerConfig {
        providers: Providers {
            gitlab: Some(GitLabProvider {
                host: "https://gitlab.example.com".to_string(),
                token: EnvString::new("test-token".to_string()),
            }),
            github: None,
        },
        groups: Groups {
            gitlab: vec![GroupConfig {
                name: "test-group".to_string(),
                local_dir: Some("test-projects".to_string()),
                recursive: false,
            }],
            github: Vec::new(),
        },
        repos: vec![
            repo("https://github.com/example/test-repo.git", Some("standalone")),
            repo("https://github.com/example/another-repo.git", Some("projects")),
        ],
    }
}

fn options() -> StatusOptions {
    StatusOptions { config_path: "/tmp/work/ranger.yaml".to_string() }
}

fn status(config: RangerConfig, workspace: &Workspace) -> Result<StatusReport, StatusError> {
    status_command(&options(), Some(Ok(config)), workspace)
}

#[test]
fn test_status_fails_if_no_config_exists() {
    let result = status_command(&options(), None, &Workspace::new());

    assert!(result.is_err());
    match result {
        Err(StatusError::ConfigNotFound(_)) => {
            // Expected error
        }
        _ => panic!("Expected ConfigNotFound error"),
    }
}

#[test]
fn test_status_parses_valid_config() {
    let result = status(test_config(), &Workspace::new());

    assert!(result.is_ok());
}

#[test]
fn test_status_reports_repo_not_cloned() {
    let result = status(test_config(), &Workspace::new());

    assert!(result.is_ok());
    let report = result.unwrap();

    assert!(report.total_repos > 0);
    assert!(report.repos_not_cloned > 0);
}

#[test]
fn test_status_detects_cloned_repo() {
    let mut workspace = Workspace::new();
    workspace.add("/tmp/work/standalone/test-repo/.git".to_string());

    let result = status(test_config(), &workspace);

    assert!(result.is_ok());
    let report = result.unwrap();

    assert!(report.repos_cloned >= 1);
    assert_eq!(report.repos_cloned, 1);
    assert_eq!(report.repos_not_cloned, 1);
}

#[test]
fn test_status_counts_all_repos_correctly() {
    let result = status(test_config(), &Workspace::new());

    assert!(result.is_ok());
    let report = result.unwrap();

    assert!(report.total_repos >= 2);
}

#[test]
fn test_status_handles_missing_local_dir() {
    let result = status(
        config_of(vec![repo("https://github.com/example/no-local-dir.git", None)]),
        &Workspace::new(),
    );

    assert!(result.is_ok());
}

#[test]
fn test_status_identifies_repo_name_from_url() {
    let result = status(test_config(), &Workspace::new());

    assert!(result.is_ok());
    let report = result.unwrap();

    assert!(!report.repos.is_empty());
    assert!(report.repos.iter().any(|r| r.name.contains("test-repo")));
}

#[test]
fn test_status_end_to_end_workflow() {
    let result = status(
        config_of(vec![
            repo("https://github.com/example/project-a.git", Some("projects")),
            repo("https://github.com/example/project-b.git", Some("projects")),
        ]),
        &Workspace::new(),
    );

    assert!(result.is_ok());
    let report = result.unwrap();

    assert_eq!(report.total_repos, 2);
    assert_eq!(report.repos.len(), 2);
}

#[test]
fn status_gives_each_entry_in_order() {
    let mut workspace = Workspace::new();
    workspace.add("/tmp/work/projects/another-repo/.git".to_string());
    let report = status(test_config(), &workspace).unwrap();
    assert_eq!(
        report,
        StatusReport {
            total_repos: 2,
            repos_cloned: 1,
            repos_not_cloned: 1,
            repos: vec![
                RepoStatus {
                    name: "test-repo".to_string(),
                    local_path: "/tmp/work/standalone/test-repo".to_string(),
                    cloned: false,
                },
                RepoStatus {
                    name: "another-repo".to_string(),
                    local_path: "/tmp/work/projects/another-repo".to_string(),
                    cloned: true,
                },
            ],
        }
    );
}

#[test]
fn status_of_one_entry() {
    let mut workspace = Workspace::new();
    workspace.add("/abs/repo/.git".to_string());
    let status = analyze_repo_status(&repo("git@host:g/repo.git", Some("/abs")), "/base", &workspace);
    assert_eq!(
        status,
        RepoStatus { name: "repo".to_string(), local_path: "/abs/repo".to_string(), cloned: true }
    );
}

#[test]
fn new_status_report_is_empty() {
    let report = StatusReport::new();
    assert_eq!(report, StatusReport::default());
    assert_eq!(report.total_repos, 0);
    assert_eq!(report.repos_cloned, 0);
    assert_eq!(report.repos_not_cloned, 0);
    assert!(report.repos.is_empty());
}

#[test]
fn status_fails_as_the_loading_did() {
    assert_eq!(
        status_command(&options(), None, &Workspace::new()),
        Err(StatusError::ConfigNotFound("/tmp/work/ranger.yaml".to_string()))
    );
    assert_eq!(
        load_config("x", Some(Err(ConfigLoadError::ParseError("bad".to_string())))),
        Err(StatusError::ConfigParseError("bad".to_string()))
    );
    assert_eq!(
        load_config("x", Some(Err(ConfigLoadError::IoError("denied".to_string())))),
        Err(StatusError::ConfigLoadError(ConfigLoadError::IoError("denied".to_string())))
    );
}

#[test]
fn status_error_messages_are_exact() {
    assert_eq!(
        StatusError::ConfigNotFound("p".to_string()).message(),
        "Configuration file not found at p"
    );
    assert_eq!(
        StatusError::ConfigParseError("bad".to_string()).message(),
        "Failed to parse configuration: bad"
    );
    assert_eq!(
        StatusError::ConfigLoadError(ConfigLoadError::IoError("denied".to_string())).message(),
        "Failed to load configuration: Failed to read config file: denied"
    );
    assert_eq!(StatusError::IoError("denied".to_string()).message(), "IO error: denied");
}

#[test]
fn status_report_and_options_clone_keep_the_fields() {
    let mut workspace = Workspace::new();
    workspace.add("/tmp/work/projects/another-repo/.git".to_string());
    let report = status(test_config(), &workspace).unwrap();
    assert_eq!(report.clone(), report);
    assert_eq!(options().clone(), options());
}

#[test]
fn status_counts_from_the_directory_of_the_manifest() {
    let options = StatusOptions { config_path: "ranger.yaml".to_string() };
    let mut workspace = Workspace::new();
    workspace.add("standalone/test-repo/.git".to_string());
    let report = status_command(&options, Some(Ok(test_config())), &workspace).unwrap();
    assert_eq!(report.repos[0].local_path, "standalone/test-repo");
    assert!(report.repos[0].cloned);
    assert_eq!(report.repos[1].local_path, "projects/another-repo");
}
