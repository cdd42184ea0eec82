//! The work list of a run: which repositories of the manifest and of the discovered
//! groups are synchronized, under which name and at which place.

use vstd::prelude::*;
use vstd::string::*;
use crate::config::{option_text, GroupConfig, RangerConfig, RepoConfig, RepoConfigView};
use crate::paths::{
    extract_repo_name, git_dir, git_dir_of, is_plain_dir, is_plain_segment, local_path, repo_name,
    resolve_path,
};
use crate::providers::gitlab::GitLabProject;
use crate::text::{
    chain, chars_of, contains, free_of, is_last_segment_start, last_segment_from,
    last_segment_start, lemma_last_segment_start, matches_at, starts_with, str_contains,
};
use crate::workspace::Workspace;

verus! {

/// A repository to synchronize.
#[derive(Debug, PartialEq)]
pub struct RepoSyncInfo {
    /// The clone URL.
    pub url: String,
    /// The repository's name, derived from the URL.
    pub name: String,
    /// Where the repository lives on disk.
    pub local_path: String,
    /// Whether the repository was found on disk: it is fetched if so, cloned if not.
    pub exists: bool,
}

/// A repository to synchronize, as texts.
pub struct RepoSyncInfoView {
    pub url: Seq<char>,
    pub name: Seq<char>,
    pub local_path: Seq<char>,
    pub exists: bool,
}

impl View for RepoSyncInfo {
    type V = RepoSyncInfoView;

    open spec fn view(&self) -> RepoSyncInfoView {
        RepoSyncInfoView {
            url: self.url@,
            name: self.name@,
            local_path: self.local_path@,
            exists: self.exists,
        }
    }
}

impl Clone for RepoSyncInfo {
    fn clone(&self) -> (copy: Self)
        ensures
            copy == *self,
    {
        RepoSyncInfo {
            url: self.url.clone(),
            name: self.name.clone(),
            local_path: self.local_path.clone(),
            exists: self.exists,
        }
    }
}

/// The entries as texts, one for one.
pub open spec fn repo_views(repos: Seq<RepoConfig>) -> Seq<RepoConfigView> {
    repos.map_values(|repo: RepoConfig| repo@)
}

/// The repositories as texts, one for one.
pub open spec fn info_views(repos: Seq<RepoSyncInfo>) -> Seq<RepoSyncInfoView> {
    repos.map_values(|repo: RepoSyncInfo| repo@)
}

/// `text` passes the filter `target`: there is no filter, or `text` contains it.
pub open spec fn passes_filter(text: Seq<char>, target: Option<Seq<char>>) -> bool {
    match target {
        None => true,
        Some(part) => contains(text, part),
    }
}

/// The standalone entries whose URL passes the filter, in their order.
pub open spec fn selected_repos(repos: Seq<RepoConfig>, target: Option<Seq<char>>) -> Seq<
    RepoConfig,
> {
    repos.filter(|repo: RepoConfig| passes_filter(repo.url@, target))
}

/// The groups whose name passes the filter, in their order.
pub open spec fn selected_groups(groups: Seq<GroupConfig>, target: Option<Seq<char>>) -> Seq<
    GroupConfig,
> {
    groups.filter(|group: GroupConfig| passes_filter(group.name@, target))
}

/// The subgroups between the group and the project: of the project's path with
/// namespace, what stands between the group's name and the project's own segment.
/// `None` where the project lies directly in the group, or not below it at all.
pub open spec fn subgroup_path(namespace_path: Seq<char>, group_name: Seq<char>) -> Option<
    Seq<char>,
> {
    let prefix = group_name + "/"@;
    if starts_with(namespace_path, prefix) {
        let below = namespace_path.skip(prefix.len() as int);
        let cut = last_segment_start(below, '/');
        if cut > 0 {
            Some(below.take(cut - 1))
        } else {
            None
        }
    } else {
        None
    }
}

/// The directory for a project of a group: the group's directory, with the project's
/// subgroups below it. Under a group without a directory the subgroups alone are the
/// directory, so that the nesting is kept there too; a project that lies directly in such
/// a group has no directory.
pub open spec fn project_local_dir(
    namespace_path: Seq<char>,
    group_name: Seq<char>,
    group_dir: Option<Seq<char>>,
) -> Option<Seq<char>> {
    match (group_dir, subgroup_path(namespace_path, group_name)) {
        (Some(dir), Some(subgroups)) => Some(dir + "/"@ + subgroups),
        (Some(dir), None) => Some(dir),
        (None, Some(subgroups)) => Some(subgroups),
        (None, None) => None,
    }
}

/// The manifest entry that a discovered project stands for: cloned by its ssh URL into
/// the directory that its group and subgroups give.
pub open spec fn project_entry(
    project: GitLabProject,
    group_name: Seq<char>,
    group_dir: Option<Seq<char>>,
) -> RepoConfigView {
    RepoConfigView {
        url: project.ssh_url_to_repo@,
        local_dir: project_local_dir(project.path_with_namespace@, group_name, group_dir),
    }
}

/// The manifest entries that the projects of a group stand for, in the order of the
/// projects.
pub open spec fn group_entries(
    projects: Seq<GitLabProject>,
    group_name: Seq<char>,
    group_dir: Option<Seq<char>>,
) -> Seq<RepoConfigView> {
    projects.map_values(|project: GitLabProject| project_entry(project, group_name, group_dir))
}

/// What a manifest entry comes to in a run: its name, its place below `base_dir`, and
/// whether its Git directory is among those `found` on disk.
pub open spec fn analysis(
    entry: RepoConfigView,
    base_dir: Seq<char>,
    found: Set<Seq<char>>,
) -> RepoSyncInfoView {
    let name = repo_name(entry.url);
    let path = local_path(base_dir, entry.local_dir, name);
    RepoSyncInfoView {
        url: entry.url,
        name,
        local_path: path,
        exists: found.contains(git_dir(path)),
    }
}

/// What the entries come to, one for one.
pub open spec fn analyses(
    entries: Seq<RepoConfigView>,
    base_dir: Seq<char>,
    found: Set<Seq<char>>,
) -> Seq<RepoSyncInfoView> {
    entries.map_values(|entry: RepoConfigView| analysis(entry, base_dir, found))
}

/// The entries of a run: the standalone entries that pass the filter, then the entries
/// discovered in groups. An entry that occurs twice stays twice.
pub open spec fn entries_to_sync(
    repos: Seq<RepoConfig>,
    target: Option<Seq<char>>,
    discovered: Seq<RepoConfig>,
) -> Seq<RepoConfigView> {
    repo_views(selected_repos(repos, target)) + repo_views(discovered)
}

/// Whether a standalone entry takes part in a run with the filter `target`.
pub fn should_sync_repo(repo_config: &RepoConfig, target: &Option<String>) -> (selected: bool)
    ensures
        selected == passes_filter(repo_config.url@, option_text(*target)),
{
    match target {
        None => true,
        Some(part) => str_contains(repo_config.url.as_str(), part.as_str()),
    }
}

/// Whether a group takes part in a run with the filter `target`.
pub fn should_discover_group(group: &GroupConfig, target: &Option<String>) -> (selected: bool)
    ensures
        selected == passes_filter(group.name@, option_text(*target)),
{
    match target {
        None => true,
        Some(part) => str_contains(group.name.as_str(), part.as_str()),
    }
}

/// The groups of `groups` that take part in a run with the filter `target`.
pub fn select_groups(groups: &Vec<GroupConfig>, target: &Option<String>) -> (selected: Vec<
    GroupConfig,
>)
    ensures
        selected@ == selected_groups(groups@, option_text(*target)),
{
    let mut selected: Vec<GroupConfig> = Vec::new();
    let mut i: usize = 0;
    proof {
        reveal(Seq::filter);
    }
    while i < groups.len()
        invariant
            i <= groups.len(),
            selected@ == selected_groups(groups@.take(i as int), option_text(*target)),
        decreases groups.len() - i,
    {
        proof {
            reveal(Seq::filter);
            assert(groups@.take(i + 1).drop_last() =~= groups@.take(i as int));
        }
        if should_discover_group(&groups[i], target) {
            selected.push(groups[i].clone());
        }
        i += 1;
    }
    assert(groups@.take(i as int) =~= groups@);
    selected
}

/// The manifest entry that a discovered project stands for.
pub fn convert_gitlab_project_to_repo_config(
    project: &GitLabProject,
    group_name: &str,
    base_local_dir: &Option<String>,
) -> (entry: RepoConfig)
    ensures
        entry@ == project_entry(*project, group_name@, option_text(*base_local_dir)),
{
    let url = project.ssh_url_to_repo.clone();
    let local_dir = match subgroups_of(project.path_with_namespace.as_str(), group_name) {
        Some(subgroups) => match base_local_dir {
            Some(dir) => {
                let mut nested = chain(dir.as_str(), "/");
                nested.append(subgroups.as_str());
                Some(nested)
            },
            None => Some(subgroups),
        },
        None => match base_local_dir {
            Some(dir) => Some(dir.clone()),
            None => None,
        },
    };
    RepoConfig { url, local_dir }
}

/// The subgroups between the group `group_name` and the project with the path
/// `namespace_path`, if there are any.
pub fn subgroups_of(namespace_path: &str, group_name: &str) -> (subgroups: Option<String>)
    ensures
        option_text(subgroups) == subgroup_path(namespace_path@, group_name@),
{
    let path = chars_of(namespace_path);
    let mut prefix = chars_of(group_name);
    prefix.push('/');
    proof {
        reveal_strlit("/");
        assert(prefix@ =~= group_name@ + "/"@);
    }
    if !matches_at(&path, 0, &prefix) {
        return None;
    }
    let from: usize = prefix.len();
    let cut: usize = last_segment_from(&path, from, path.len(), '/');
    if cut == from {
        return None;
    }
    let subgroups = namespace_path.substring_char(from, cut - 1);
    assert(subgroups@ =~= path@.skip(from as int).take(cut - from - 1));
    Some(subgroups.to_owned())
}

/// The manifest entries that the projects of a group stand for.
pub fn convert_group_projects(
    projects: &Vec<GitLabProject>,
    group_name: &str,
    base_local_dir: &Option<String>,
) -> (entries: Vec<RepoConfig>)
    ensures
        repo_views(entries@) == group_entries(
            projects@,
            group_name@,
            option_text(*base_local_dir),
        ),
{
    let mut entries: Vec<RepoConfig> = Vec::new();
    let mut i: usize = 0;
    while i < projects.len()
        invariant
            i <= projects.len(),
            entries@.len() == i,
            forall|k: int|
                0 <= k < i ==> (#[trigger] entries@[k])@ == project_entry(
                    projects@[k],
                    group_name@,
                    option_text(*base_local_dir),
                ),
        decreases projects.len() - i,
    {
        entries.push(
            convert_gitlab_project_to_repo_config(&projects[i], group_name, base_local_dir),
        );
        i += 1;
    }
    entries
}

/// Where the repository of a manifest entry lives on disk, given its name: below the
/// entry's directory, which counts from `base_dir` unless it is absolute, or below
/// `base_dir` itself where the entry names no directory.
pub fn build_local_path(repo_config: &RepoConfig, base_dir: &str, repo_name: &str) -> (path:
    String)
    ensures
        path@ == local_path(base_dir@, repo_config@.local_dir, repo_name@),
{
    match &repo_config.local_dir {
        Some(dir) => resolve_path(base_dir, Some(dir.as_str()), repo_name),
        None => resolve_path(base_dir, None, repo_name),
    }
}

/// What a manifest entry comes to in a run: the repository's name, its place below
/// `base_dir`, and whether it already exists in `workspace`.
pub fn analyze_repo(repo_config: &RepoConfig, base_dir: &str, workspace: &Workspace) -> (info:
    RepoSyncInfo)
    ensures
        info@ == analysis(repo_config@, base_dir@, workspace@),
{
    let name = extract_repo_name(repo_config.url.as_str());
    let path = build_local_path(repo_config, base_dir, name.as_str());
    let exists = workspace.has_repository(path.as_str());
    RepoSyncInfo { url: repo_config.url.clone(), name, local_path: path, exists }
}

/// The Git directory whose presence decides whether the entry is cloned or fetched.
pub fn git_dir_to_probe(repo_config: &RepoConfig, base_dir: &str) -> (path: String)
    ensures
        path@ == git_dir(
            local_path(base_dir@, repo_config@.local_dir, repo_name(repo_config@.url)),
        ),
{
    let name = extract_repo_name(repo_config.url.as_str());
    let path = build_local_path(repo_config, base_dir, name.as_str());
    git_dir_of(path.as_str())
}

/// The entries of a run with the filter `target`: the standalone entries of the manifest
/// that pass the filter, then the entries `discovered` in groups, each part in its order.
pub fn repos_to_sync(
    config: &RangerConfig,
    target: &Option<String>,
    discovered: &Vec<RepoConfig>,
) -> (entries: Vec<RepoConfig>)
    ensures
        repo_views(entries@) == entries_to_sync(config.repos@, option_text(*target), discovered@),
{
    let mut entries: Vec<RepoConfig> = Vec::new();
    let repos = &config.repos;
    let mut i: usize = 0;
    proof {
        reveal(Seq::filter);
    }
    while i < repos.len()
        invariant
            i <= repos.len(),
            entries@ == selected_repos(repos@.take(i as int), option_text(*target)),
        decreases repos.len() - i,
    {
        proof {
            reveal(Seq::filter);
            assert(repos@.take(i + 1).drop_last() =~= repos@.take(i as int));
        }
        if should_sync_repo(&repos[i], target) {
            entries.push(repos[i].clone());
        }
        i += 1;
    }
    assert(repos@.take(i as int) =~= repos@);
    let ghost standalone = entries@;
    let mut k: usize = 0;
    while k < discovered.len()
        invariant
            k <= discovered.len(),
            entries@ == standalone + discovered@.take(k as int),
        decreases discovered.len() - k,
    {
        entries.push(discovered[k].clone());
        k += 1;
    }
    entries
}

/// The repositories of a run, in the order of the work list: for each entry its name, its
/// place below `base_dir`, and whether it already exists in `workspace`.
pub fn discover_repos(
    config: &RangerConfig,
    base_dir: &str,
    target: &Option<String>,
    discovered: &Vec<RepoConfig>,
    workspace: &Workspace,
) -> (repos: Vec<RepoSyncInfo>)
    ensures
        info_views(repos@) == analyses(
            entries_to_sync(config.repos@, option_text(*target), discovered@),
            base_dir@,
            workspace@,
        ),
{
    let entries = repos_to_sync(config, target, discovered);
    let mut repos: Vec<RepoSyncInfo> = Vec::new();
    let mut i: usize = 0;
    while i < entries.len()
        invariant
            i <= entries.len(),
            repos@.len() == i,
            forall|k: int|
                0 <= k < i ==> (#[trigger] repos@[k])@ == analysis(
                    entries@[k]@,
                    base_dir@,
                    workspace@,
                ),
        decreases entries.len() - i,
    {
        repos.push(analyze_repo(&entries[i], base_dir, workspace));
        i += 1;
    }
    repos
}

/// A project that lies directly in its group goes into the group's directory, and has
/// no directory where the group has none.
pub proof fn lemma_direct_project_dir(
    group_name: Seq<char>,
    project: Seq<char>,
    group_dir: Option<Seq<char>>,
)
    requires
        free_of(project, '/'),
    ensures
        subgroup_path(group_name + "/"@ + project, group_name) == None::<Seq<char>>,
        project_local_dir(group_name + "/"@ + project, group_name, group_dir) == group_dir,
{
    let prefix = group_name + "/"@;
    let path = prefix + project;
    assert(path.skip(prefix.len() as int) =~= project);
    lemma_last_segment_start(project, '/');
}

/// A project that lies in subgroups of its group goes into the group's directory with
/// the subgroups below it, and into the subgroups alone where the group has no
/// directory: the nesting on the server is the nesting on disk.
pub proof fn lemma_nested_project_dir(
    group_name: Seq<char>,
    subgroups: Seq<char>,
    project: Seq<char>,
    group_dir: Seq<char>,
)
    requires
        free_of(project, '/'),
    ensures
        subgroup_path(group_name + "/"@ + subgroups + "/"@ + project, group_name) == Some(
            subgroups,
        ),
        project_local_dir(
            group_name + "/"@ + subgroups + "/"@ + project,
            group_name,
            Some(group_dir),
        ) == Some(group_dir + "/"@ + subgroups),
        project_local_dir(group_name + "/"@ + subgroups + "/"@ + project, group_name, None)
            == Some(subgroups),
{
    reveal_strlit("/");
    let prefix = group_name + "/"@;
    let below = subgroups + "/"@ + project;
    let path = prefix + subgroups + "/"@ + project;
    assert(path.subrange(0, prefix.len() as int) =~= prefix);
    assert(path.skip(prefix.len() as int) =~= below);
    let cut: int = subgroups.len() as int + 1;
    assert(below[cut - 1] == '/');
    assert forall|j: int| cut <= j < below.len() implies below[j] != '/' by {
    }
    lemma_last_segment_start(below, '/');
}

/// Written out, for directories and segments that join plainly: the repository `name` of
/// a project in the subgroups `subgroups` of a group with the directory `group_dir`
/// lives at `base/group_dir/subgroups/name`.
pub proof fn lemma_nested_project_place(
    base_dir: Seq<char>,
    group_name: Seq<char>,
    subgroups: Seq<char>,
    project: Seq<char>,
    group_dir: Seq<char>,
    name: Seq<char>,
)
    requires
        free_of(project, '/'),
        is_plain_dir(base_dir),
        is_plain_segment(group_dir),
        is_plain_dir(subgroups),
        is_plain_segment(name),
    ensures
        local_path(
            base_dir,
            project_local_dir(
                group_name + "/"@ + subgroups + "/"@ + project,
                group_name,
                Some(group_dir),
            ),
            name,
        ) == base_dir + "/"@ + group_dir + "/"@ + subgroups + "/"@ + name,
{
    reveal_strlit("/");
    lemma_nested_project_dir(group_name, subgroups, project, group_dir);
}

/// Written out, for directories and segments that join plainly: the repository `name` of
/// a project in the subgroups `subgroups` of a group without a directory lives at
/// `base/subgroups/name`, so that two projects of one name in two subgroups have two
/// places.
pub proof fn lemma_nested_project_place_without_dir(
    base_dir: Seq<char>,
    group_name: Seq<char>,
    subgroups: Seq<char>,
    project: Seq<char>,
    name: Seq<char>,
)
    requires
        free_of(project, '/'),
        is_plain_dir(base_dir),
        is_plain_segment(subgroups),
        is_plain_dir(subgroups),
        is_plain_segment(name),
    ensures
        local_path(
            base_dir,
            project_local_dir(group_name + "/"@ + subgroups + "/"@ + project, group_name, None),
            name,
        ) == base_dir + "/"@ + subgroups + "/"@ + name,
{
    reveal_strlit("/");
    lemma_nested_project_dir(group_name, subgroups, project, Seq::empty());
}

} // verus!
