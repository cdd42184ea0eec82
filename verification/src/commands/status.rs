//! Telling which repositories of the manifest are cloned.

use vstd::prelude::*;
use vstd::string::*;
use crate::config::{ConfigLoadError, RangerConfig, RepoConfig};
use crate::paths::{base_dir, base_dir_of, git_dir, local_path, repo_name};
use crate::text::chain;
use crate::workspace::Workspace;

pub use crate::paths::extract_repo_name;
pub use crate::targets::build_local_path;

verus! {

/// A failed status query.
#[derive(Debug, PartialEq)]
pub enum StatusError {
    /// There is no manifest at the path.
    ConfigNotFound(String),
    /// The manifest could not be parsed; the text is the parser's complaint.
    ConfigParseError(String),
    /// The manifest could not be loaded.
    ConfigLoadError(ConfigLoadError),
    /// Reading failed; the text is the reason.
    IoError(String),
}

impl StatusError {
    /// The error in words.
    pub open spec fn text(&self) -> Seq<char> {
        match *self {
            StatusError::ConfigNotFound(path) => "Configuration file not found at "@ + path@,
            StatusError::ConfigParseError(reason) => "Failed to parse configuration: "@ + reason@,
            StatusError::ConfigLoadError(error) => "Failed to load configuration: "@
                + error.text(),
            StatusError::IoError(reason) => "IO error: "@ + reason@,
        }
    }

    /// The error in words.
    pub fn message(&self) -> (text: String)
        ensures
            text@ == self.text(),
    {
        match self {
            StatusError::ConfigNotFound(path) => chain(
                "Configuration file not found at ",
                path.as_str(),
            ),
            StatusError::ConfigParseError(reason) => chain(
                "Failed to parse configuration: ",
                reason.as_str(),
            ),
            StatusError::ConfigLoadError(error) => {
                let inner = error.message();
                chain("Failed to load configuration: ", inner.as_str())
            },
            StatusError::IoError(reason) => chain("IO error: ", reason.as_str()),
        }
    }
}

/// What to tell the status of.
#[derive(Debug, PartialEq)]
pub struct StatusOptions {
    /// The path of the manifest.
    pub config_path: String,
}

impl Clone for StatusOptions {
    fn clone(&self) -> (copy: Self)
        ensures
            copy == *self,
    {
        StatusOptions { config_path: self.config_path.clone() }
    }
}

/// A repository of the manifest and whether it is cloned.
#[derive(Debug, PartialEq)]
pub struct RepoStatus {
    pub name: String,
    pub local_path: String,
    pub cloned: bool,
}

/// The status of a repository, as texts.
pub struct RepoStatusView {
    pub name: Seq<char>,
    pub local_path: Seq<char>,
    pub cloned: bool,
}

impl View for RepoStatus {
    type V = RepoStatusView;

    open spec fn view(&self) -> RepoStatusView {
        RepoStatusView { name: self.name@, local_path: self.local_path@, cloned: self.cloned }
    }
}

impl Clone for RepoStatus {
    fn clone(&self) -> (copy: Self)
        ensures
            copy == *self,
    {
        RepoStatus {
            name: self.name.clone(),
            local_path: self.local_path.clone(),
            cloned: self.cloned,
        }
    }
}

/// The status of the repositories of the manifest.
#[derive(Debug, PartialEq)]
pub struct StatusReport {
    /// The number of repositories.
    pub total_repos: usize,
    /// How many of them are cloned.
    pub repos_cloned: usize,
    /// How many of them are not.
    pub repos_not_cloned: usize,
    /// The repositories, in the manifest's order.
    pub repos: Vec<RepoStatus>,
}

impl StatusReport {
    /// The report on no repositories.
    pub fn new() -> (report: Self)
        ensures
            report.total_repos == 0,
            report.repos_cloned == 0,
            report.repos_not_cloned == 0,
            report.repos@.len() == 0,
    {
        StatusReport { total_repos: 0, repos_cloned: 0, repos_not_cloned: 0, repos: Vec::new() }
    }
}

impl Clone for StatusReport {
    fn clone(&self) -> (copy: Self)
        ensures
            copy.total_repos == self.total_repos,
            copy.repos_cloned == self.repos_cloned,
            copy.repos_not_cloned == self.repos_not_cloned,
            copy.repos@ == self.repos@,
    {
        let mut repos: Vec<RepoStatus> = Vec::new();
        let mut i: usize = 0;
        while i < self.repos.len()
            invariant
                i <= self.repos.len(),
                repos@ == self.repos@.take(i as int),
            decreases self.repos.len() - i,
        {
            repos.push(self.repos[i].clone());
            assert(self.repos@.take(i + 1) =~= self.repos@.take(i as int).push(
                self.repos@[i as int],
            ));
            i += 1;
        }
        assert(self.repos@.take(i as int) =~= self.repos@);
        StatusReport {
            total_repos: self.total_repos,
            repos_cloned: self.repos_cloned,
            repos_not_cloned: self.repos_not_cloned,
            repos,
        }
    }
}

impl Default for StatusReport {
    fn default() -> (report: Self)
        ensures
            report.total_repos == 0,
            report.repos_cloned == 0,
            report.repos_not_cloned == 0,
            report.repos@.len() == 0,
    {
        StatusReport::new()
    }
}

/// The status of the repositories as texts, one for one.
pub open spec fn repo_status_views(repos: Seq<RepoStatus>) -> Seq<RepoStatusView> {
    repos.map_values(|repo: RepoStatus| repo@)
}

/// The status of a manifest entry: the repository's name, its place below `base_dir`, and
/// whether its Git directory is among those `found` on disk.
pub open spec fn repo_status(
    entry: RepoConfig,
    base_dir: Seq<char>,
    found: Set<Seq<char>>,
) -> RepoStatusView {
    let name = repo_name(entry.url@);
    let path = local_path(base_dir, entry@.local_dir, name);
    RepoStatusView { name, local_path: path, cloned: found.contains(git_dir(path)) }
}

/// The status of the entries, one for one.
pub open spec fn repo_statuses(
    entries: Seq<RepoConfig>,
    base_dir: Seq<char>,
    found: Set<Seq<char>>,
) -> Seq<RepoStatusView> {
    entries.map_values(|entry: RepoConfig| repo_status(entry, base_dir, found))
}

/// The repositories that are cloned.
pub open spec fn cloned_repos(repos: Seq<RepoStatusView>) -> Seq<RepoStatusView> {
    repos.filter(|repo: RepoStatusView| repo.cloned)
}

/// What came of loading the manifest at `config_path`, as the status query reports it:
/// `None` stands for a path without a file. A complaint of the parser is passed on as
/// such; any other failure to load is wrapped.
pub open spec fn loaded_config(
    config_path: Seq<char>,
    loaded: Option<Result<RangerConfig, ConfigLoadError>>,
    config: Result<RangerConfig, StatusError>,
) -> bool {
    match loaded {
        None => config matches Err(StatusError::ConfigNotFound(path)) && path@ == config_path,
        Some(Ok(manifest)) => config == Ok::<RangerConfig, StatusError>(manifest),
        Some(Err(ConfigLoadError::ParseError(reason))) => config == Err::<
            RangerConfig,
            StatusError,
        >(StatusError::ConfigParseError(reason)),
        Some(Err(other)) => config == Err::<RangerConfig, StatusError>(
            StatusError::ConfigLoadError(other),
        ),
    }
}

/// The manifest at `config_path`, given what came of loading it.
pub fn load_config(
    config_path: &str,
    loaded: Option<Result<RangerConfig, ConfigLoadError>>,
) -> (config: Result<RangerConfig, StatusError>)
    ensures
        loaded_config(config_path@, loaded, config),
{
    match loaded {
        None => Err(StatusError::ConfigNotFound(config_path.to_owned())),
        Some(Ok(manifest)) => Ok(manifest),
        Some(Err(ConfigLoadError::ParseError(reason))) => Err(
            StatusError::ConfigParseError(reason),
        ),
        Some(Err(other)) => Err(StatusError::ConfigLoadError(other)),
    }
}

/// The status of a manifest entry.
pub fn analyze_repo_status(
    repo_config: &RepoConfig,
    base_dir: &str,
    workspace: &Workspace,
) -> (status: RepoStatus)
    ensures
        status@ == repo_status(*repo_config, base_dir@, workspace@),
{
    let name = extract_repo_name(repo_config.url.as_str());
    let path = build_local_path(repo_config, base_dir, name.as_str());
    let cloned = workspace.has_repository(path.as_str());
    RepoStatus { name, local_path: path, cloned }
}

/// The status of the standalone repositories of the manifest at `options.config_path`,
/// in the manifest's order, each placed below the directory that holds the manifest, with
/// the counts of the cloned and of the others. `loaded` is what came of loading the
/// manifest; where that failed, the query fails in the same way.
pub fn status_command(
    options: &StatusOptions,
    loaded: Option<Result<RangerConfig, ConfigLoadError>>,
    workspace: &Workspace,
) -> (status: Result<StatusReport, StatusError>)
    ensures
        match loaded {
            Some(Ok(manifest)) => {
                &&& status.is_ok()
                &&& repo_status_views(status.unwrap().repos@) == repo_statuses(
                    manifest.repos@,
                    base_dir(options.config_path@),
                    workspace@,
                )
                &&& status.unwrap().total_repos == manifest.repos@.len()
                &&& status.unwrap().repos_cloned == cloned_repos(
                    repo_statuses(manifest.repos@, base_dir(options.config_path@), workspace@),
                ).len()
                &&& status.unwrap().repos_cloned + status.unwrap().repos_not_cloned
                    == status.unwrap().total_repos
            },
            _ => status.is_err() && loaded_config(
                options.config_path@,
                loaded,
                Err(status.unwrap_err()),
            ),
        },
{
    let config = match load_config(options.config_path.as_str(), loaded) {
        Ok(config) => config,
        Err(error) => {
            return Err(error);
        },
    };
    let dir = base_dir_of(options.config_path.as_str());
    let base = dir.as_str();
    let entries = config.get_standalone_repos();
    let mut report = StatusReport::new();
    let ghost all = repo_statuses(entries@, base@, workspace@);
    let mut i: usize = 0;
    proof {
        reveal(Seq::filter);
    }
    while i < entries.len()
        invariant
            i <= entries.len(),
            all == repo_statuses(entries@, base@, workspace@),
            report.repos@.len() == i,
            report.total_repos == i,
            report.repos_cloned == cloned_repos(all.take(i as int)).len(),
            report.repos_cloned + report.repos_not_cloned == i,
            forall|k: int|
                0 <= k < i ==> (#[trigger] report.repos@[k])@ == repo_status(
                    entries@[k],
                    base@,
                    workspace@,
                ),
        decreases entries.len() - i,
    {
        let status = analyze_repo_status(&entries[i], base, workspace);
        proof {
            reveal(Seq::filter);
            assert(all.take(i + 1).drop_last() =~= all.take(i as int));
        }
        if status.cloned {
            report.repos_cloned += 1;
        } else {
            report.repos_not_cloned += 1;
        }
        report.repos.push(status);
        report.total_repos += 1;
        i += 1;
    }
    assert(all.take(i as int) =~= all);
    Ok(report)
}

} // verus!
