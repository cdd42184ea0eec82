//! Listing the repositories of the manifest with the places they have on disk.

use vstd::prelude::*;
use vstd::string::*;
use crate::config::{ConfigLoadError, RangerConfig, RepoConfig};
use crate::paths::{base_dir, base_dir_of, local_path, repo_name};
use crate::text::chain;

pub use crate::paths::extract_repo_name;
pub use crate::targets::build_local_path;

verus! {

/// A failed listing.
#[derive(Debug, PartialEq)]
pub enum LsError {
    /// There is no manifest at the path.
    ConfigNotFound(String),
    /// The manifest could not be parsed; the text is the parser's complaint.
    ConfigParseError(String),
    /// The manifest could not be loaded.
    ConfigLoadError(ConfigLoadError),
    /// Reading failed; the text is the reason.
    IoError(String),
}

impl LsError {
    /// The error in words.
    pub open spec fn text(&self) -> Seq<char> {
        match *self {
            LsError::ConfigNotFound(path) => "Configuration file not found at "@ + path@,
            LsError::ConfigParseError(reason) => "Failed to parse configuration: "@ + reason@,
            LsError::ConfigLoadError(error) => "Failed to load configuration: "@ + error.text(),
            LsError::IoError(reason) => "IO error: "@ + reason@,
        }
    }

    /// The error in words.
    pub fn message(&self) -> (text: String)
        ensures
            text@ == self.text(),
    {
        match self {
            LsError::ConfigNotFound(path) => chain(
                "Configuration file not found at ",
                path.as_str(),
            ),
            LsError::ConfigParseError(reason) => chain(
                "Failed to parse configuration: ",
                reason.as_str(),
            ),
            LsError::ConfigLoadError(error) => {
                let inner = error.message();
                chain("Failed to load configuration: ", inner.as_str())
            },
            LsError::IoError(reason) => chain("IO error: ", reason.as_str()),
        }
    }
}

/// What to list.
#[derive(Debug, PartialEq)]
pub struct LsOptions {
    /// The path of the manifest.
    pub config_path: String,
}

impl Clone for LsOptions {
    fn clone(&self) -> (copy: Self)
        ensures
            copy == *self,
    {
        LsOptions { config_path: self.config_path.clone() }
    }
}

/// A repository of the manifest and its place on disk.
#[derive(Debug, PartialEq)]
pub struct RepoInfo {
    pub name: String,
    pub url: String,
    pub local_path: String,
}

/// A listed repository, as texts.
pub struct RepoInfoView {
    pub name: Seq<char>,
    pub url: Seq<char>,
    pub local_path: Seq<char>,
}

impl View for RepoInfo {
    type V = RepoInfoView;

    open spec fn view(&self) -> RepoInfoView {
        RepoInfoView { name: self.name@, url: self.url@, local_path: self.local_path@ }
    }
}

impl Clone for RepoInfo {
    fn clone(&self) -> (copy: Self)
        ensures
            copy == *self,
    {
        RepoInfo {
            name: self.name.clone(),
            url: self.url.clone(),
            local_path: self.local_path.clone(),
        }
    }
}

/// The listed repositories as texts, one for one.
pub open spec fn repo_info_views(repos: Seq<RepoInfo>) -> Seq<RepoInfoView> {
    repos.map_values(|repo: RepoInfo| repo@)
}

/// What the listing says of a manifest entry: the repository's name, its URL, and its
/// place below `base_dir`.
pub open spec fn repo_info(entry: RepoConfig, base_dir: Seq<char>) -> RepoInfoView {
    RepoInfoView {
        name: repo_name(entry.url@),
        url: entry.url@,
        local_path: local_path(base_dir, entry@.local_dir, repo_name(entry.url@)),
    }
}

/// What the listing says of the entries, one for one.
pub open spec fn repo_infos(entries: Seq<RepoConfig>, base_dir: Seq<char>) -> Seq<RepoInfoView> {
    entries.map_values(|entry: RepoConfig| repo_info(entry, base_dir))
}

/// What came of loading the manifest at `config_path`, as the listing reports it: `None`
/// stands for a path without a file. A complaint of the parser is passed on as such; any
/// other failure to load is wrapped.
pub open spec fn loaded_config(
    config_path: Seq<char>,
    loaded: Option<Result<RangerConfig, ConfigLoadError>>,
    config: Result<RangerConfig, LsError>,
) -> bool {
    match loaded {
        None => config matches Err(LsError::ConfigNotFound(path)) && path@ == config_path,
        Some(Ok(manifest)) => config == Ok::<RangerConfig, LsError>(manifest),
        Some(Err(ConfigLoadError::ParseError(reason))) => config == Err::<RangerConfig, LsError>(
            LsError::ConfigParseError(reason),
        ),
        Some(Err(other)) => config == Err::<RangerConfig, LsError>(
            LsError::ConfigLoadError(other),
        ),
    }
}

/// The manifest at `config_path`, given what came of loading it.
pub fn load_config(
    config_path: &str,
    loaded: Option<Result<RangerConfig, ConfigLoadError>>,
) -> (config: Result<RangerConfig, LsError>)
    ensures
        loaded_config(config_path@, loaded, config),
{
    match loaded {
        None => Err(LsError::ConfigNotFound(config_path.to_owned())),
        Some(Ok(manifest)) => Ok(manifest),
        Some(Err(ConfigLoadError::ParseError(reason))) => Err(LsError::ConfigParseError(reason)),
        Some(Err(other)) => Err(LsError::ConfigLoadError(other)),
    }
}

/// What the listing says of a manifest entry.
pub fn build_repo_info(repo_config: &RepoConfig, base_dir: &str) -> (info: RepoInfo)
    ensures
        info@ == repo_info(*repo_config, base_dir@),
{
    let name = extract_repo_name(repo_config.url.as_str());
    let path = build_local_path(repo_config, base_dir, name.as_str());
    RepoInfo { name, url: repo_config.url.clone(), local_path: path }
}

/// The standalone repositories of the manifest at `options.config_path`, in the
/// manifest's order, each with its name and its place below the directory that holds the
/// manifest. `loaded` is what came of loading the manifest; where that failed, the
/// listing fails in the same way.
pub fn ls_command(
    options: &LsOptions,
    loaded: Option<Result<RangerConfig, ConfigLoadError>>,
) -> (listing: Result<Vec<RepoInfo>, LsError>)
    ensures
        match loaded {
            Some(Ok(manifest)) => listing.is_ok() && repo_info_views(listing.unwrap()@)
                == repo_infos(manifest.repos@, base_dir(options.config_path@)),
            _ => listing.is_err() && loaded_config(
                options.config_path@,
                loaded,
                Err(listing.unwrap_err()),
            ),
        },
{
    let config = match load_config(options.config_path.as_str(), loaded) {
        Ok(config) => config,
        Err(error) => {
            return Err(error);
        },
    };
    let dir = base_dir_of(options.config_path.as_str());
    let base = dir.as_str();
    let entries = config.get_standalone_repos();
    let mut repos: Vec<RepoInfo> = Vec::new();
    let mut i: usize = 0;
    while i < entries.len()
        invariant
            i <= entries.len(),
            repos@.len() == i,
            forall|k: int|
                0 <= k < i ==> (#[trigger] repos@[k])@ == repo_info(entries@[k], base@),
        decreases entries.len() - i,
    {
        repos.push(build_repo_info(&entries[i], base));
        i += 1;
    }
    Ok(repos)
}

} // verus!
