use git_ranger::commands::ls::{load_config, ls_command, LsError, LsOptions, RepoInfo};
use git_ranger::config::{
    ConfigLoadError, EnvString, GitLabProvider, GroupConfig, Groups, Providers, RangerConfig,
    RepoConfig,
};

fn repo(url: &str, local_dir: Option<&str>) -> RepoConfig {
    RepoConfig { url: url.to_string(), local_dir: local_dir.map(str::to_string) }
}

fn config_of(repos: Vec<RepoConfig>) -> RangerConfig {
    RangerConfig { providers: Providers::default(), groups: Groups::default(), repos }
}

fn test_config() -> RangerConfig {
    RangerConfig {
        providers: Providers {
            gitlab: Some(GitLabProvider {
                host: "https://gitlab.example.com".to_string(),
                token: EnvString::new("test-token".to_string()),
            }),
            github: None,
        },
        groups: Groups {
            gitlab: vec![GroupConfig {
                name: "test-group".to_string(),
                local_dir: Some("test-projects".to_string()),
                recursive: false,
            }],
            github: Vec::new(),
        },
        repos: vec![
            repo("https://github.com/example/test-repo.git", Some("standalone")),
            repo("https://github.com/example/another-repo.git", Some("projects")),
        ],
    }
}

fn options() -> LsOptions {
    LsOptions { config_path: "/tmp/work/ranger.yaml".to_string() }
}

fn list(config: RangerConfig) -> Result<Vec<RepoInfo>, LsError> {
    ls_command(&options(), Some(Ok(config)))
}

#[test]
fn test_ls_fails_if_no_config_exists() {
    let result = ls_command(&options(), None);

    assert!(result.is_err());
    match result {
        Err(LsError::ConfigNotFound(_)) => {
            // Expected error
        }
        _ => panic!("Expected ConfigNotFound error"),
    }
}

#[test]
fn test_ls_parses_valid_config() {
    let result = list(test_config());

    assert!(result.is_ok());
}

#[test]
fn test_ls_lists_all_repos() {
    let result = list(test_config());

    assert!(result.is_ok());
    let repos = result.unwrap();

    assert_eq!(repos.len(), 2);
}

#[test]
fn test_ls_includes_repo_names() {
    let result = list(test_config());

    assert!(result.is_ok());
    let repos = result.unwrap();

    assert!(repos.iter().all(|r| !r.name.is_empty()));
    assert!(repos.iter().any(|r| r.name == "test-repo"));
    assert!(repos.iter().any(|r| r.name == "another-repo"));
}

#[test]
fn test_ls_includes_local_paths() {
    let result = list(test_config());

    assert!(result.is_ok());
    let repos = result.unwrap();

    assert!(repos.iter().all(|r| !r.local_path.is_empty()));
}

#[test]
fn test_ls_handles_missing_local_dir() {
    let result = list(config_of(vec![repo("https://github.com/example/no-local-dir.git", None)]));

    assert!(result.is_ok());
    let repos = result.unwrap();
    assert_eq!(repos.len(), 1);

    let repo_path = &repos[0].local_path;
    assert!(repo_path.contains("no-local-dir"));
    assert_eq!(repo_path, "/tmp/work/no-local-dir");
}

#[test]
fn test_ls_extracts_repo_name_from_url() {
    let result = list(config_of(vec![
        repo("https://github.com/user/my-awesome-project.git", Some("projects")),
        repo("git@gitlab.com:org/another-project.git", Some("gitlab-stuff")),
    ]));

    assert!(result.is_ok());
    let repos = result.unwrap();

    assert!(repos.iter().any(|r| r.name == "my-awesome-project"));
    assert!(repos.iter().any(|r| r.name == "another-project"));
}

#[test]
fn test_ls_shows_full_local_paths() {
    let result = list(test_config());

    assert!(result.is_ok());
    let repos = result.unwrap();

    assert!(repos.iter().any(|r| {
        let path_str = &r.local_path;
        path_str.contains("standalone") && path_str.contains("test-repo")
    }));
}

#[test]
fn test_ls_end_to_end_workflow() {
    let result = list(config_of(vec![
        repo("https://github.com/example/project-a.git", Some("projects")),
        repo("https://github.com/example/project-b.git", Some("projects")),
        repo("git@github.com:user/special-project.git", Some("special")),
    ]));

    assert!(result.is_ok());
    let repos = result.unwrap();

    assert_eq!(repos.len(), 3);

    let names: Vec<String> = repos.iter().map(|r| r.name.clone()).collect();
    assert!(names.contains(&"project-a".to_string()));
    assert!(names.contains(&"project-b".to_string()));
    assert!(names.contains(&"special-project".to_string()));
}

#[test]
fn ls_gives_each_entry_in_order_with_name_url_and_place() {
    let repos = list(test_config()).unwrap();
    assert_eq!(
        repos,
        vec![
            RepoInfo {
                name: "test-repo".to_string(),
                url: "https://github.com/example/test-repo.git".to_string(),
                local_path: "/tmp/work/standalone/test-repo".to_string(),
            },
            RepoInfo {
                name: "another-repo".to_string(),
                url: "https://github.com/example/another-repo.git".to_string(),
                local_path: "/tmp/work/projects/another-repo".to_string(),
            },
        ]
    );
}

#[test]
fn ls_fails_as_the_loading_did() {
    assert_eq!(
        ls_command(&options(), None),
        Err(LsError::ConfigNotFound("/tmp/work/ranger.yaml".to_string()))
    );
    assert_eq!(
        ls_command(
            &options(),
            Some(Err(ConfigLoadError::ParseError("bad".to_string())))
        ),
        Err(LsError::ConfigParseError("bad".to_string()))
    );
    assert_eq!(
        load_config("x", Some(Err(ConfigLoadError::IoError("denied".to_string())))),
        Err(LsError::ConfigLoadError(ConfigLoadError::IoError("denied".to_string())))
    );
}

#[test]
fn ls_error_messages_are_exact() {
    assert_eq!(
        LsError::ConfigNotFound("p".to_string()).message(),
        "Configuration file not found at p"
    );
    assert_eq!(
        LsError::ConfigParseError("bad".to_string()).message(),
        "Failed to parse configuration: bad"
    );
    assert_eq!(
        LsError::ConfigLoadError(ConfigLoadError::ParseError("bad".to_string())).message(),
        "Failed to load configuration: Failed to parse YAML config: bad"
    );
    assert_eq!(LsError::IoError("denied".to_string()).message(), "IO error: denied");
}

#[test]
fn ls_counts_from_the_directory_of_the_manifest() {
    let here = LsOptions { config_path: "./ranger.yaml".to_string() };
    let repos = ls_command(&here, Some(Ok(test_config()))).unwrap();
    assert_eq!(repos[0].local_path, "./standalone/test-repo");
    let bare = LsOptions { config_path: "ranger.yaml".to_string() };
    let repos = ls_command(&bare, Some(Ok(test_config()))).unwrap();
    assert_eq!(repos[0].local_path, "standalone/test-repo");
    assert_eq!(bare.clone(), bare);
}
