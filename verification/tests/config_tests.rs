use git_ranger::config::{
    ConfigLoadError, EnvResolutionError, EnvString, Environment, GitHubProvider, GitLabProvider,
    GroupConfig, Groups, Providers, RangerConfig, RepoConfig,
};

fn config_with_tokens(gitlab: Option<&str>, github: Option<&str>) -> RangerConfig {
    RangerConfig {
        providers: Providers {
            gitlab: gitlab.map(|token| GitLabProvider {
                host: "https://gitlab.example.com".to_string(),
                token: EnvString::new(token.to_string()),
            }),
            github: github.map(|token| GitHubProvider { token: EnvString::new(token.to_string()) }),
        },
        groups: Groups::default(),
        repos: Vec::new(),
    }
}

#[test]
fn test_raw_value() {
    let env_str = EnvString::new("${MY_VAR}".to_string());
    assert_eq!(env_str.raw(), "${MY_VAR}");
}

#[test]
fn test_literal_string() {
    let env_str = EnvString::new("my-token-123".to_string());
    assert_eq!(env_str.resolve(&Environment::new()).unwrap(), "my-token-123");
}

#[test]
fn test_env_var_resolution() {
    let mut env = Environment::new();
    env.set("TEST_TOKEN_VAR".to_string(), "secret-value".to_string());
    let env_str = EnvString::new("${TEST_TOKEN_VAR}".to_string());
    assert_eq!(env_str.resolve(&env).unwrap(), "secret-value");
}

#[test]
fn test_missing_env_var() {
    let env = Environment::new();
    let env_str = EnvString::new("${MISSING_VAR}".to_string());
    assert!(env_str.resolve(&env).is_err());
}

#[test]
fn test_env_string_resolves_environment_variables() {
    let mut env = Environment::new();
    env.set("TEST_CONFIG_TOKEN".to_string(), "secret-test-token-12345".to_string());

    let env_str = EnvString::new("${TEST_CONFIG_TOKEN}".to_string());
    let resolved = env_str.resolve(&env).expect("Should resolve successfully");

    assert_eq!(resolved, "secret-test-token-12345");
}

#[test]
fn test_env_string_returns_literal_when_not_env_var() {
    let env_str = EnvString::new("literal-value".to_string());
    let resolved = env_str.resolve(&Environment::new()).expect("Should resolve successfully");

    assert_eq!(resolved, "literal-value");
}

#[test]
fn test_env_string_error_when_var_not_set() {
    let env = Environment::new();

    let env_str = EnvString::new("${NONEXISTENT_VAR_12345}".to_string());
    let result = env_str.resolve(&env);

    assert!(result.is_err());
    assert!(result.unwrap_err().message().contains("NONEXISTENT_VAR_12345"));
}

#[test]
fn test_full_config_with_both_literal_and_env_tokens() {
    let config = config_with_tokens(Some("${GITLAB_TOKEN}"), Some("literal-token-for-testing"));
    let mut env = Environment::new();
    env.set("GITLAB_TOKEN".to_string(), "gitlab-secret-token".to_string());

    assert_eq!(
        config.providers.gitlab.as_ref().unwrap().token.resolve(&env).unwrap(),
        "gitlab-secret-token"
    );
    assert_eq!(
        config.providers.github.as_ref().unwrap().token.resolve(&env).unwrap(),
        "literal-token-for-testing"
    );
}

#[test]
fn unset_variable_error_names_the_variable() {
    let error = EnvString::new("${GITLAB_TOKEN}".to_string())
        .resolve(&Environment::new())
        .unwrap_err();
    assert_eq!(error, EnvResolutionError::VariableNotSet { var_name: "GITLAB_TOKEN".to_string() });
    assert_eq!(error.message(), "Environment variable 'GITLAB_TOKEN' is not set");
}

#[test]
fn variable_is_what_stands_between_the_braces() {
    assert_eq!(EnvString::new("${A}".to_string()).variable(), Some("A".to_string()));
    assert_eq!(EnvString::new("${}".to_string()).variable(), Some("".to_string()));
    assert_eq!(EnvString::new("${A".to_string()).variable(), None);
    assert_eq!(EnvString::new("$A}".to_string()).variable(), None);
    assert_eq!(EnvString::new("${".to_string()).variable(), None);
    assert_eq!(EnvString::new("".to_string()).variable(), None);
    assert_eq!(EnvString::new("x${A}".to_string()).variable(), None);
    assert_eq!(EnvString::new("${A}${B}".to_string()).variable(), Some("A}${B".to_string()));
}

#[test]
fn environment_keeps_the_later_of_two_definitions() {
    let mut env = Environment::new();
    assert_eq!(env.get("A"), None);
    env.set("A".to_string(), "one".to_string());
    env.set("B".to_string(), "two".to_string());
    env.set("A".to_string(), "three".to_string());
    assert_eq!(env.get("A"), Some("three".to_string()));
    assert_eq!(env.get("B"), Some("two".to_string()));
    assert_eq!(env.get("C"), None);
}

#[test]
fn empty_variable_value_resolves_to_the_empty_text() {
    let mut env = Environment::new();
    env.set("EMPTY".to_string(), "".to_string());
    assert_eq!(EnvString::new("${EMPTY}".to_string()).resolve(&env).unwrap(), "");
}

#[test]
fn get_standalone_repos_gives_the_manifest_order() {
    let mut config = config_with_tokens(None, None);
    config.repos.push(RepoConfig { url: "https://host/a.git".to_string(), local_dir: None });
    config.repos.push(RepoConfig {
        url: "https://host/b.git".to_string(),
        local_dir: Some("dir".to_string()),
    });
    let repos = config.get_standalone_repos();
    assert_eq!(repos.len(), 2);
    assert_eq!(repos[0].url, "https://host/a.git");
    assert_eq!(repos[1].local_dir, Some("dir".to_string()));
}

#[test]
fn validate_providers_accepts_literals_and_set_variables() {
    let mut env = Environment::new();
    env.set("GITLAB_TOKEN".to_string(), "t".to_string());
    assert!(config_with_tokens(None, None).validate_providers(&env).is_ok());
    assert!(config_with_tokens(Some("${GITLAB_TOKEN}"), Some("literal"))
        .validate_providers(&env)
        .is_ok());
}

#[test]
fn validate_providers_reports_the_first_unset_variable() {
    let env = Environment::new();
    let both = config_with_tokens(Some("${GITLAB_TOKEN}"), Some("${GITHUB_TOKEN}"));
    assert_eq!(
        both.validate_providers(&env),
        Err(EnvResolutionError::VariableNotSet { var_name: "GITLAB_TOKEN".to_string() })
    );
    let github = config_with_tokens(Some("literal"), Some("${GITHUB_TOKEN}"));
    assert_eq!(
        github.validate_providers(&env),
        Err(EnvResolutionError::VariableNotSet { var_name: "GITHUB_TOKEN".to_string() })
    );
}

#[test]
fn defaults_are_empty() {
    let providers = Providers::default();
    assert!(providers.gitlab.is_none());
    assert!(providers.github.is_none());
    let groups = Groups::default();
    assert_eq!(groups.gitlab.len(), 0);
    assert_eq!(groups.github.len(), 0);
}

#[test]
fn group_config_clone_keeps_the_fields() {
    let group = GroupConfig {
        name: "my-org/my-team".to_string(),
        local_dir: Some("team-projects".to_string()),
        recursive: true,
    };
    assert_eq!(group.clone(), group);
}

#[test]
fn config_load_error_messages() {
    assert_eq!(
        ConfigLoadError::IoError("denied".to_string()).message(),
        "Failed to read config file: denied"
    );
    assert_eq!(
        ConfigLoadError::ParseError("bad indent".to_string()).message(),
        "Failed to parse YAML config: bad indent"
    );
}

#[test]
fn manifest_clone_keeps_every_part() {
    let mut config = config_with_tokens(Some("${GITLAB_TOKEN}"), Some("literal"));
    config.groups.gitlab.push(GroupConfig {
        name: "my-org/my-team".to_string(),
        local_dir: Some("team-projects".to_string()),
        recursive: true,
    });
    config.groups.github.push(GroupConfig {
        name: "my-github-org".to_string(),
        local_dir: None,
        recursive: false,
    });
    config.repos.push(RepoConfig { url: "https://host/a.git".to_string(), local_dir: None });
    assert_eq!(config.clone(), config);
    assert_eq!(config.providers.clone(), config.providers);
    assert_eq!(config.groups.clone(), config.groups);
    assert_eq!(config.providers.gitlab.clone(), config.providers.gitlab);
    assert_eq!(config.providers.github.clone(), config.providers.github);
}
