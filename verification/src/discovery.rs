//! Expanding the GitLab groups of the manifest into the projects they hold.
//!
//! The caller does the network's part: it connects when asked to, lists a group when
//! asked to, and reports what came of it. What is done with each result is decided here.

use vstd::prelude::*;
use vstd::string::*;
use crate::config::{
    option_text, resolved, variable_name, Environment, GroupConfig, RangerConfig, RepoConfig,
    RepoConfigView,
};
use crate::providers::gitlab::{GitLabError, GitLabErrorView, GitLabProject};
use crate::targets::{
    convert_group_projects, group_entries, repo_views, select_groups, selected_groups,
};
use crate::text::{chain, texts};

verus! {

/// What a discovery waits for.
#[derive(Debug, PartialEq)]
pub enum DiscoveryStage {
    /// For the connection to GitLab.
    Connecting,
    /// For the projects of the next group.
    Listing,
    /// For nothing: the discovery is over.
    Done,
}

/// How far a discovery has come.
pub struct DiscoveryState {
    pub stage: DiscoveryStage,
    /// The base URL of the GitLab instance.
    pub host: Seq<char>,
    /// The resolved token.
    pub token: Seq<char>,
    /// The groups to list, in the order of the manifest.
    pub groups: Seq<GroupConfig>,
    /// The number of groups that were listed or given up.
    pub listed: nat,
    /// The entries discovered so far.
    pub entries: Seq<RepoConfigView>,
    /// The warnings given so far.
    pub warnings: Seq<Seq<char>>,
}

/// The second line of a warning after which no group is listed.
pub open spec fn skipping_groups() -> Seq<char> {
    "         Skipping GitLab groups"@
}

/// The warning for a token that refers to the unset variable `variable`.
pub open spec fn token_warning(variable: Seq<char>) -> Seq<char> {
    "Warning: Failed to resolve GitLab token: "@ + ("Environment variable '"@ + variable
        + "' is not set"@)
}

/// The warning for a connection that could not be set up.
pub open spec fn client_warning(error: GitLabErrorView) -> Seq<char> {
    "Warning: Failed to create GitLab client: "@ + error.message()
}

/// The warning for a group whose projects could not be listed.
pub open spec fn group_warning(group_name: Seq<char>, error: GitLabErrorView) -> Seq<char> {
    "Warning: Failed to get projects for group '"@ + group_name + "': "@ + error.message()
}

/// A discovery that is over, with nothing found and the given warnings.
pub open spec fn nothing_discovered(warnings: Seq<Seq<char>>) -> DiscoveryState {
    DiscoveryState {
        stage: DiscoveryStage::Done,
        host: Seq::empty(),
        token: Seq::empty(),
        groups: Seq::empty(),
        listed: 0,
        entries: Seq::empty(),
        warnings,
    }
}

/// The state in which the discovery for `config` begins. Without a GitLab provider, and
/// with one whose token is empty, there is nothing to discover. A token that does not
/// resolve in `env` ends the discovery with a warning: no group is listed. Otherwise the
/// groups whose name passes the filter await the connection.
pub open spec fn discovery_start(
    config: RangerConfig,
    target: Option<Seq<char>>,
    env: Map<Seq<char>, Seq<char>>,
) -> DiscoveryState {
    match config.providers.gitlab {
        None => nothing_discovered(Seq::empty()),
        Some(provider) => match resolved(provider.token@, env) {
            None => nothing_discovered(
                seq![token_warning(variable_name(provider.token@).unwrap()), skipping_groups()],
            ),
            Some(token) => if token.len() == 0 {
                nothing_discovered(Seq::empty())
            } else {
                DiscoveryState {
                    stage: DiscoveryStage::Connecting,
                    host: provider.host@,
                    token,
                    groups: selected_groups(config.groups.gitlab@, target),
                    listed: 0,
                    entries: Seq::empty(),
                    warnings: Seq::empty(),
                }
            },
        },
    }
}

/// The state after the attempt to connect. With a connection the groups are listed, the
/// first one first; a failure ends the discovery with a warning. A discovery that does
/// not wait for the connection stays as it is.
pub open spec fn discovery_connected(
    state: DiscoveryState,
    result: Result<(), GitLabErrorView>,
) -> DiscoveryState {
    if state.stage is Connecting {
        match result {
            Err(error) => DiscoveryState {
                stage: DiscoveryStage::Done,
                warnings: state.warnings.push(client_warning(error)).push(skipping_groups()),
                ..state
            },
            Ok(_) => DiscoveryState {
                stage: if state.listed < state.groups.len() {
                    DiscoveryStage::Listing
                } else {
                    DiscoveryStage::Done
                },
                ..state
            },
        }
    } else {
        state
    }
}

/// The state after the listing of the group that was due. Its projects become entries,
/// in their order, behind those of the groups before; a failure becomes a warning, and
/// the group is left out. Either way the next group is due, and after the last one the
/// discovery is over. A discovery that does not wait for a listing stays as it is.
pub open spec fn discovery_listed(
    state: DiscoveryState,
    result: Result<Seq<GitLabProject>, GitLabErrorView>,
) -> DiscoveryState {
    if state.stage is Listing && state.listed < state.groups.len() {
        let group = state.groups[state.listed as int];
        DiscoveryState {
            stage: if state.listed + 1 < state.groups.len() {
                DiscoveryStage::Listing
            } else {
                DiscoveryStage::Done
            },
            listed: state.listed + 1,
            entries: match result {
                Ok(projects) => state.entries + group_entries(
                    projects,
                    group.name@,
                    option_text(group.local_dir),
                ),
                Err(_) => state.entries,
            },
            warnings: match result {
                Ok(_) => state.warnings,
                Err(error) => state.warnings.push(group_warning(group.name@, error)),
            },
            ..state
        }
    } else {
        state
    }
}

/// The state after the listings of several groups, one after the other.
pub open spec fn discovery_run(
    state: DiscoveryState,
    results: Seq<Result<Seq<GitLabProject>, GitLabErrorView>>,
) -> DiscoveryState
    decreases results.len(),
{
    if results.len() == 0 {
        state
    } else {
        discovery_run(discovery_listed(state, results.first()), results.drop_first())
    }
}

/// Listings as results, one for one.
pub open spec fn listing_results(listings: Seq<Result<Vec<GitLabProject>, GitLabError>>) -> Seq<
    Result<Seq<GitLabProject>, GitLabErrorView>,
> {
    listings.map_values(|listing: Result<Vec<GitLabProject>, GitLabError>| listing_result(listing))
}

/// A listing as a result: the projects, or the failure as texts.
pub open spec fn listing_result(listing: Result<Vec<GitLabProject>, GitLabError>) -> Result<
    Seq<GitLabProject>,
    GitLabErrorView,
> {
    match listing {
        Ok(projects) => Ok(projects@),
        Err(error) => Err(error@),
    }
}

/// The entries that the listings of `groups` give, group after group: those of the
/// projects of each group that was listed, none for a group whose listing failed.
pub open spec fn listed_entries(
    groups: Seq<GroupConfig>,
    results: Seq<Result<Seq<GitLabProject>, GitLabErrorView>>,
) -> Seq<RepoConfigView>
    decreases results.len(),
{
    if results.len() == 0 || groups.len() == 0 {
        Seq::empty()
    } else {
        let first = match results.first() {
            Ok(projects) => group_entries(
                projects,
                groups.first().name@,
                option_text(groups.first().local_dir),
            ),
            Err(_) => Seq::empty(),
        };
        first + listed_entries(groups.drop_first(), results.drop_first())
    }
}

/// The number of listings that failed.
pub open spec fn failures(results: Seq<Result<Seq<GitLabProject>, GitLabErrorView>>) -> nat
    decreases results.len(),
{
    if results.len() == 0 {
        0
    } else {
        failures(results.drop_first()) + if results.first() is Err {
            1nat
        } else {
            0nat
        }
    }
}

/// What the caller is to do next.
#[derive(Debug, PartialEq)]
pub enum DiscoveryAction {
    /// Set up the connection to `host` with `token`, and report with `connected`.
    Connect { host: String, token: String },
    /// List the projects of the group `group_path`, with those of its subgroups if
    /// `recursive` is set, and report with `listed`.
    List { group_path: String, recursive: bool },
    /// Nothing: the discovery is over.
    Done,
}

/// The discovery of the projects of the manifest's GitLab groups.
pub struct GroupDiscovery {
    stage: DiscoveryStage,
    host: String,
    token: String,
    groups: Vec<GroupConfig>,
    listed: usize,
    entries: Vec<RepoConfig>,
    warnings: Vec<String>,
}

/// Begins the discovery of the projects of the GitLab groups of `config` whose name
/// passes the filter `target`, with the token resolved in `env`.
pub fn discover_gitlab_repos(
    config: &RangerConfig,
    target: &Option<String>,
    env: &Environment,
) -> (discovery: GroupDiscovery)
    ensures
        discovery.state() == discovery_start(*config, option_text(*target), env@),
{
    let provider = match &config.providers.gitlab {
        None => {
            let warnings: Vec<String> = Vec::new();
            assert(texts(warnings@) =~= Seq::<Seq<char>>::empty());
            return GroupDiscovery::over(warnings);
        },
        Some(provider) => provider,
    };
    let token = match provider.token.resolve(env) {
        Err(error) => {
            let mut warnings: Vec<String> = Vec::new();
            let reason = error.message();
            warnings.push(chain("Warning: Failed to resolve GitLab token: ", reason.as_str()));
            warnings.push("         Skipping GitLab groups".to_owned());
            assert(texts(warnings@) =~= seq![
                token_warning(variable_name(provider.token@).unwrap()),
                skipping_groups(),
            ]);
            return GroupDiscovery::over(warnings);
        },
        Ok(token) => token,
    };
    if token.as_str().unicode_len() == 0 {
        let warnings: Vec<String> = Vec::new();
        assert(texts(warnings@) =~= Seq::<Seq<char>>::empty());
        return GroupDiscovery::over(warnings);
    }
    let groups = select_groups(&config.groups.gitlab, target);
    let discovery = GroupDiscovery {
        stage: DiscoveryStage::Connecting,
        host: provider.host.clone(),
        token,
        groups,
        listed: 0,
        entries: Vec::new(),
        warnings: Vec::new(),
    };
    assert(repo_views(discovery.entries@) =~= Seq::<RepoConfigView>::empty());
    assert(texts(discovery.warnings@) =~= Seq::<Seq<char>>::empty());
    discovery
}

impl GroupDiscovery {
    #[verifier::type_invariant]
    spec fn well_formed(self) -> bool {
        &&& self.listed <= self.groups@.len()
        &&& self.stage is Listing ==> self.listed < self.groups@.len()
    }

    /// How far the discovery has come.
    pub closed spec fn state(&self) -> DiscoveryState {
        DiscoveryState {
            stage: self.stage,
            host: self.host@,
            token: self.token@,
            groups: self.groups@,
            listed: self.listed as nat,
            entries: repo_views(self.entries@),
            warnings: texts(self.warnings@),
        }
    }

    /// The group whose listing is due, while the discovery waits for one.
    pub open spec fn due_group(&self) -> GroupConfig {
        self.state().groups[self.state().listed as int]
    }

    fn over(warnings: Vec<String>) -> (discovery: Self)
        ensures
            discovery.state() == nothing_discovered(texts(warnings@)),
    {
        let discovery = GroupDiscovery {
            stage: DiscoveryStage::Done,
            host: String::new(),
            token: String::new(),
            groups: Vec::new(),
            listed: 0,
            entries: Vec::new(),
            warnings,
        };
        assert(repo_views(discovery.entries@) =~= Seq::<RepoConfigView>::empty());
        discovery
    }

    /// What the caller is to do next.
    pub fn next_action(&self) -> (action: DiscoveryAction)
        ensures
            match self.state().stage {
                DiscoveryStage::Connecting => action matches DiscoveryAction::Connect {
                    host,
                    token,
                } && host@ == self.state().host && token@ == self.state().token,
                DiscoveryStage::Listing => action matches DiscoveryAction::List {
                    group_path,
                    recursive,
                } && self.state().listed < self.state().groups.len() && group_path@
                    == self.due_group().name@ && recursive == self.due_group().recursive,
                DiscoveryStage::Done => action is Done,
            },
    {
        proof {
            use_type_invariant(self);
        }
        match self.stage {
            DiscoveryStage::Connecting => DiscoveryAction::Connect {
                host: self.host.clone(),
                token: self.token.clone(),
            },
            DiscoveryStage::Listing => DiscoveryAction::List {
                group_path: self.groups[self.listed].name.clone(),
                recursive: self.groups[self.listed].recursive,
            },
            DiscoveryStage::Done => DiscoveryAction::Done,
        }
    }

    /// Takes in what came of the attempt to connect.
    pub fn connected(self, result: Result<(), GitLabError>) -> (next: Self)
        ensures
            next.state() == discovery_connected(
                self.state(),
                match result {
                    Ok(_) => Ok(()),
                    Err(error) => Err(error@),
                },
            ),
    {
        proof {
            use_type_invariant(&self);
        }
        let GroupDiscovery { stage, host, token, groups, listed, entries, warnings } = self;
        match stage {
            DiscoveryStage::Connecting => match result {
                Err(error) => {
                    let mut warnings = warnings;
                    let reason = error.message();
                    warnings.push(
                        chain("Warning: Failed to create GitLab client: ", reason.as_str()),
                    );
                    warnings.push("         Skipping GitLab groups".to_owned());
                    let next = GroupDiscovery {
                        stage: DiscoveryStage::Done,
                        host,
                        token,
                        groups,
                        listed,
                        entries,
                        warnings,
                    };
                    assert(texts(next.warnings@) =~= texts(self.warnings@).push(
                        client_warning(error@),
                    ).push(skipping_groups()));
                    next
                },
                Ok(_) => {
                    let stage = if listed < groups.len() {
                        DiscoveryStage::Listing
                    } else {
                        DiscoveryStage::Done
                    };
                    GroupDiscovery { stage, host, token, groups, listed, entries, warnings }
                },
            },
            _ => GroupDiscovery { stage, host, token, groups, listed, entries, warnings },
        }
    }

    /// Takes in what came of the listing of the group that was due.
    pub fn listed(self, result: Result<Vec<GitLabProject>, GitLabError>) -> (next: Self)
        ensures
            next.state() == discovery_listed(self.state(), listing_result(result)),
    {
        proof {
            use_type_invariant(&self);
        }
        let GroupDiscovery { stage, host, token, groups, listed, entries, warnings } = self;
        match stage {
            DiscoveryStage::Listing => {
                let mut entries = entries;
                let mut warnings = warnings;
                assert(listed < groups.len());
                let group = &groups[listed];
                match result {
                    Ok(projects) => {
                        let mut found = convert_group_projects(
                            &projects,
                            group.name.as_str(),
                            &group.local_dir,
                        );
                        let ghost before = entries@;
                        let ghost added = found@;
                        entries.append(&mut found);
                        assert(repo_views(before + added) =~= repo_views(before) + repo_views(
                            added,
                        ));
                    },
                    Err(error) => {
                        let reason = error.message();
                        let mut line = chain(
                            "Warning: Failed to get projects for group '",
                            group.name.as_str(),
                        );
                        line.append("': ");
                        line.append(reason.as_str());
                        warnings.push(line);
                        assert(texts(warnings@) =~= texts(self.warnings@).push(
                            group_warning(group.name@, error@),
                        ));
                    },
                }
                let stage = if listed + 1 < groups.len() {
                    DiscoveryStage::Listing
                } else {
                    DiscoveryStage::Done
                };
                GroupDiscovery { stage, host, token, groups, listed: listed + 1, entries, warnings }
            },
            _ => GroupDiscovery { stage, host, token, groups, listed, entries, warnings },
        }
    }

    /// Takes in what came of the listings of several groups, one after the other, as
    /// `listed` does.
    pub fn listed_all(self, results: Vec<Result<Vec<GitLabProject>, GitLabError>>) -> (next: Self)
        ensures
            next.state() == discovery_run(self.state(), listing_results(results@)),
    {
        let ghost start = self.state();
        let ghost all = listing_results(results@);
        let mut discovery = self;
        for result in iter: results
            invariant
                iter.seq() == results@,
                all == listing_results(results@),
                discovery.state() == discovery_run(start, all.take(iter.index() as int)),
        {
            proof {
                let done = all.take(iter.index() as int);
                lemma_discovery_run_push(start, done, all[iter.index() as int]);
                assert(all.take(iter.index() + 1) =~= done.push(all[iter.index() as int]));
            }
            discovery = discovery.listed(result);
        }
        assert(all.take(results@.len() as int) =~= all);
        discovery
    }

    /// Whether the discovery is over.
    pub fn is_done(&self) -> (done: bool)
        ensures
            done == (self.state().stage is Done),
    {
        match self.stage {
            DiscoveryStage::Done => true,
            _ => false,
        }
    }

    /// The entries discovered so far and the warnings given so far.
    pub fn finish(self) -> (found: (Vec<RepoConfig>, Vec<String>))
        ensures
            repo_views(found.0@) == self.state().entries,
            texts(found.1@) == self.state().warnings,
    {
        (self.entries, self.warnings)
    }
}

/// Listings that arrive one after the other are taken in one after the other.
pub proof fn lemma_discovery_run_push(
    state: DiscoveryState,
    results: Seq<Result<Seq<GitLabProject>, GitLabErrorView>>,
    last: Result<Seq<GitLabProject>, GitLabErrorView>,
)
    ensures
        discovery_run(state, results.push(last)) == discovery_listed(
            discovery_run(state, results),
            last,
        ),
    decreases results.len(),
{
    let all = results.push(last);
    if results.len() == 0 {
        assert(discovery_run(discovery_listed(state, last), all.drop_first())
            == discovery_listed(state, last));
    } else {
        assert(all.drop_first() =~= results.drop_first().push(last));
        lemma_discovery_run_push(
            discovery_listed(state, results.first()),
            results.drop_first(),
            last,
        );
    }
}

/// When every group that is due gets its listing, the discovery ends with the entries of
/// all the groups that could be listed, in the order of the groups, and with one warning
/// for each group that could not: a group's failure costs the run that group alone.
pub proof fn lemma_discovery_lists_every_group(
    state: DiscoveryState,
    results: Seq<Result<Seq<GitLabProject>, GitLabErrorView>>,
)
    requires
        state.stage is Listing,
        results.len() > 0,
        state.listed + results.len() == state.groups.len(),
    ensures
        discovery_run(state, results).stage is Done,
        discovery_run(state, results).listed == state.groups.len(),
        discovery_run(state, results).entries == state.entries + listed_entries(
            state.groups.skip(state.listed as int),
            results,
        ),
        discovery_run(state, results).warnings.len() == state.warnings.len() + failures(results),
        discovery_run(state, results).warnings.take(state.warnings.len() as int)
            == state.warnings,
    decreases results.len(),
{
    let due = state.groups.skip(state.listed as int);
    let next = discovery_listed(state, results.first());
    let rest = results.drop_first();
    assert(due.first() == state.groups[state.listed as int]);
    assert(due.drop_first() =~= state.groups.skip(state.listed as int + 1));
    assert(next.warnings.take(state.warnings.len() as int) =~= state.warnings);
    if rest.len() == 0 {
        assert(discovery_run(next, rest) == next);
        assert(failures(rest) == 0);
        assert(listed_entries(due.drop_first(), rest) =~= Seq::<RepoConfigView>::empty());
        assert(next.entries =~= state.entries + listed_entries(due, results));
    } else {
        lemma_discovery_lists_every_group(next, rest);
        let last = discovery_run(next, rest);
        assert(last.entries =~= state.entries + listed_entries(due, results));
        assert(last.warnings.take(state.warnings.len() as int) =~= last.warnings.take(
            next.warnings.len() as int,
        ).take(state.warnings.len() as int));
    }
}

} // verus!
