//! Starting a workspace: the manifest that a new workspace begins with.

use vstd::prelude::*;
use vstd::string::*;
use crate::paths::{join_path, path_join};
use crate::text::chain;

verus! {

/// The name of the manifest in its directory.
pub const CONFIG_FILE_NAME: &'static str = "ranger.yaml";

/// The manifest that a new workspace begins with: every section, with examples.
pub const DEFAULT_CONFIG_TEMPLATE: &'static str = r#"# Git Ranger Configuration
# This file defines which repositories to manage and where to sync them locally.

# SECURITY: Never commit tokens directly to this file!
# Use environment variables to keep credentials secure.
# Syntax: ${ENV_VAR_NAME} - reads from environment variable
# Example: token: "${GITLAB_TOKEN}"

# Provider configurations (GitLab, GitHub, etc.)
providers:
  # GitLab configuration
  gitlab:
    host: "https://gitlab.example.com"  # Your GitLab instance URL
    token: "${GITLAB_TOKEN}"            # Set via: export GITLAB_TOKEN="your-token-here"
  
  # GitHub configuration (uncomment to use)
  # github:
  #   token: "${GITHUB_TOKEN}"          # Set via: export GITHUB_TOKEN="your-token-here"

# Groups to sync (provider-specific)
groups:
  # GitLab groups
  gitlab:
    - name: "my-org/my-team"            # Group path on GitLab
      local_dir: "team-projects"        # Where to clone repos locally
      recursive: true                   # Include nested subgroups
    
    # - name: "another-group"
    #   local_dir: "other-projects"
    #   recursive: false

  # GitHub organizations (uncomment to use)
  # github:
  #   - name: "my-github-org"
  #     local_dir: "github-projects"

# Individual repositories to sync
repos:
  # Standalone repos not part of a group
  - url: "git@github.com:example/standalone-tool.git"
    local_dir: "standalone"
  
  # - url: "https://gitlab.example.com/user/project.git"
  #   local_dir: "special-projects"

# Configuration notes:
# - local_dir is optional and can be relative or absolute
# - If local_dir is not specified, repos clone to the current directory
# - recursive: true will discover all nested subgroups (GitLab)
# - Run 'git-ranger sync' after editing this file to apply changes
#
# Setting up tokens:
#   Windows (PowerShell):
#     $env:GITLAB_TOKEN = "your-token-here"
#     $env:GITHUB_TOKEN = "your-token-here"
#   
#   Linux/macOS (bash/zsh):
#     export GITLAB_TOKEN="your-token-here"
#     export GITHUB_TOKEN="your-token-here"
#   
#   Or add to your shell profile (~/.bashrc, ~/.zshrc, or PowerShell profile)
#   to persist across sessions.
#
# IMPORTANT: Add ranger.yaml to .gitignore to prevent accidental commits!
"#;

/// A workspace could not be started.
#[derive(Debug, PartialEq)]
pub enum InitError {
    /// There is a manifest at the path already.
    ConfigAlreadyExists(String),
    /// The manifest could not be written; the text is the reason.
    IoError(String),
}

impl InitError {
    /// The error in words.
    pub open spec fn text(&self) -> Seq<char> {
        match *self {
            InitError::ConfigAlreadyExists(path) => "Configuration file already exists at "@
                + path@,
            InitError::IoError(reason) => "Failed to write configuration file: "@ + reason@,
        }
    }

    /// The error in words.
    pub fn message(&self) -> (text: String)
        ensures
            text@ == self.text(),
    {
        match self {
            InitError::ConfigAlreadyExists(path) => chain(
                "Configuration file already exists at ",
                path.as_str(),
            ),
            InitError::IoError(reason) => chain(
                "Failed to write configuration file: ",
                reason.as_str(),
            ),
        }
    }
}

/// A file to write.
#[derive(Debug, PartialEq)]
pub struct NewFile {
    pub path: String,
    pub contents: String,
}

/// The path of the manifest in the directory `target_dir`.
pub open spec fn config_path(target_dir: Seq<char>) -> Seq<char> {
    path_join(target_dir, CONFIG_FILE_NAME@)
}

/// The path of the manifest in the directory `target_dir`.
pub fn config_path_in(target_dir: &str) -> (path: String)
    ensures
        path@ == config_path(target_dir@),
{
    join_path(target_dir, CONFIG_FILE_NAME)
}

/// The manifest to write into `target_dir`, given whether there is a file at its path
/// already: the default manifest if there is none, and an error that names the path if
/// there is one.
pub fn init_command(target_dir: &str, already_exists: bool) -> (file: Result<NewFile, InitError>)
    ensures
        already_exists ==> (file matches Err(InitError::ConfigAlreadyExists(path)) && path@
            == config_path(target_dir@)),
        !already_exists ==> (file matches Ok(new_file) && new_file.path@ == config_path(
            target_dir@,
        ) && new_file.contents@ == DEFAULT_CONFIG_TEMPLATE@),
{
    let path = config_path_in(target_dir);
    if already_exists {
        Err(InitError::ConfigAlreadyExists(path))
    } else {
        Ok(NewFile { path, contents: DEFAULT_CONFIG_TEMPLATE.to_owned() })
    }
}

/// An error of the file system while the manifest was written, as an error of the
/// command.
pub fn write_failed(reason: String) -> (error: InitError)
    ensures
        error == InitError::IoError(reason),
{
    InitError::IoError(reason)
}

} // verus!
