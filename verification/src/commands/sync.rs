//! Synchronizing the workspace: the work list is gone through once, each repository is
//! cloned or fetched, and what came of it adds up to a report.

use vstd::prelude::*;
use vstd::string::*;
use crate::config::{
    clone_option, option_text, ConfigLoadError, RangerConfig, RepoConfig, RepoConfigView,
};
use crate::git::{git_failure, GitOperation, ProcessExit};
use crate::paths::{base_dir, base_dir_of, git_dir};
use crate::providers::gitlab::GitLabError;
use crate::targets::{
    analyses, analysis, discover_repos, entries_to_sync, info_views, RepoSyncInfo,
};
use crate::workspace::Workspace;
use crate::text::{chain, texts};

pub use crate::paths::extract_repo_name;
pub use crate::targets::should_sync_repo;

verus! {

/// A failed synchronization, or a failed step of one.
#[derive(Debug, PartialEq)]
pub enum SyncError {
    /// There is no manifest at the path.
    ConfigNotFound(String),
    /// The manifest could not be parsed; the text is the parser's complaint.
    ConfigParseError(String),
    /// The manifest could not be loaded.
    ConfigLoadError(ConfigLoadError),
    /// Reading or writing failed; the text is the reason.
    IoError(String),
    /// A Git operation failed; the text says which and why.
    GitError(String),
    /// An exchange with GitLab failed.
    GitLabError(GitLabError),
}

impl SyncError {
    /// The error in words.
    pub open spec fn text(&self) -> Seq<char> {
        match *self {
            SyncError::ConfigNotFound(path) => "Configuration file not found at "@ + path@,
            SyncError::ConfigParseError(reason) => "Failed to parse configuration: "@ + reason@,
            SyncError::ConfigLoadError(error) => "Failed to load configuration: "@ + error.text(),
            SyncError::IoError(reason) => "IO error: "@ + reason@,
            SyncError::GitError(reason) => "Git operation failed: "@ + reason@,
            SyncError::GitLabError(error) => "GitLab API error: "@ + error@.message(),
        }
    }

    /// The error in words.
    pub fn message(&self) -> (text: String)
        ensures
            text@ == self.text(),
    {
        match self {
            SyncError::ConfigNotFound(path) => chain(
                "Configuration file not found at ",
                path.as_str(),
            ),
            SyncError::ConfigParseError(reason) => chain(
                "Failed to parse configuration: ",
                reason.as_str(),
            ),
            SyncError::ConfigLoadError(error) => {
                let inner = error.message();
                chain("Failed to load configuration: ", inner.as_str())
            },
            SyncError::IoError(reason) => chain("IO error: ", reason.as_str()),
            SyncError::GitError(reason) => chain("Git operation failed: ", reason.as_str()),
            SyncError::GitLabError(error) => {
                let inner = error.message();
                chain("GitLab API error: ", inner.as_str())
            },
        }
    }
}

/// What to synchronize, and how.
#[derive(Debug, PartialEq)]
pub struct SyncOptions {
    /// The path of the manifest.
    pub config_path: String,
    /// The filter: only repositories whose URL and groups whose name contain it take part.
    pub target: Option<String>,
    /// Whether the run only tells what it would do.
    pub dry_run: bool,
}

impl Clone for SyncOptions {
    fn clone(&self) -> (copy: Self)
        ensures
            copy == *self,
    {
        SyncOptions {
            config_path: self.config_path.clone(),
            target: clone_option(&self.target),
            dry_run: self.dry_run,
        }
    }
}

/// What a run did, or would do.
#[derive(Debug, PartialEq)]
pub struct SyncReport {
    /// The number of repositories on the work list.
    pub total_repos: usize,
    /// How many of them are not on disk yet.
    pub repos_to_clone: usize,
    /// How many of them are on disk.
    pub repos_to_fetch: usize,
    /// How many were cloned.
    pub repos_cloned: usize,
    /// How many were fetched.
    pub repos_fetched: usize,
    /// How many were left out.
    pub repos_skipped: usize,
    /// One line for each repository that could not be cloned or fetched, in the order of
    /// the work list.
    pub errors: Vec<String>,
}

/// A report, with its lines as texts.
pub struct SyncReportView {
    pub total_repos: nat,
    pub repos_to_clone: nat,
    pub repos_to_fetch: nat,
    pub repos_cloned: nat,
    pub repos_fetched: nat,
    pub repos_skipped: nat,
    pub errors: Seq<Seq<char>>,
}

impl View for SyncReport {
    type V = SyncReportView;

    open spec fn view(&self) -> SyncReportView {
        SyncReportView {
            total_repos: self.total_repos as nat,
            repos_to_clone: self.repos_to_clone as nat,
            repos_to_fetch: self.repos_to_fetch as nat,
            repos_cloned: self.repos_cloned as nat,
            repos_fetched: self.repos_fetched as nat,
            repos_skipped: self.repos_skipped as nat,
            errors: texts(self.errors@),
        }
    }
}

/// The report in which every count is zero and no line is written.
pub open spec fn empty_report() -> SyncReportView {
    SyncReportView {
        total_repos: 0,
        repos_to_clone: 0,
        repos_to_fetch: 0,
        repos_cloned: 0,
        repos_fetched: 0,
        repos_skipped: 0,
        errors: Seq::empty(),
    }
}

impl SyncReport {
    /// The report of a run without repositories.
    pub fn new() -> (report: Self)
        ensures
            report@ == empty_report(),
    {
        let report = SyncReport {
            total_repos: 0,
            repos_to_clone: 0,
            repos_to_fetch: 0,
            repos_cloned: 0,
            repos_fetched: 0,
            repos_skipped: 0,
            errors: Vec::new(),
        };
        assert(report@.errors =~= Seq::<Seq<char>>::empty());
        report
    }
}

impl Default for SyncReport {
    fn default() -> (report: Self)
        ensures
            report@ == empty_report(),
    {
        SyncReport::new()
    }
}

impl Clone for SyncReport {
    fn clone(&self) -> (copy: Self)
        ensures
            copy@ == self@,
    {
        let mut errors: Vec<String> = Vec::new();
        let mut i: usize = 0;
        while i < self.errors.len()
            invariant
                i <= self.errors.len(),
                errors@.len() == i,
                forall|k: int| 0 <= k < i ==> errors@[k] == self.errors@[k],
            decreases self.errors.len() - i,
        {
            errors.push(self.errors[i].clone());
            i += 1;
        }
        assert(errors@ =~= self.errors@);
        SyncReport {
            total_repos: self.total_repos,
            repos_to_clone: self.repos_to_clone,
            repos_to_fetch: self.repos_to_fetch,
            repos_cloned: self.repos_cloned,
            repos_fetched: self.repos_fetched,
            repos_skipped: self.repos_skipped,
            errors,
        }
    }
}

/// The repositories of the work list that are on disk: those to fetch.
pub open spec fn to_fetch(repos: Seq<RepoSyncInfo>) -> Seq<RepoSyncInfo> {
    repos.filter(|repo: RepoSyncInfo| repo.exists)
}

/// The repositories of the work list that are not on disk: those to clone.
pub open spec fn to_clone(repos: Seq<RepoSyncInfo>) -> Seq<RepoSyncInfo> {
    repos.filter(|repo: RepoSyncInfo| !repo.exists)
}

/// The report before anything is done: the size of the work list and of its two parts.
pub open spec fn initial_report(repos: Seq<RepoSyncInfo>) -> SyncReportView {
    SyncReportView {
        total_repos: repos.len(),
        repos_to_clone: to_clone(repos).len(),
        repos_to_fetch: to_fetch(repos).len(),
        repos_cloned: 0,
        repos_fetched: 0,
        repos_skipped: 0,
        errors: Seq::empty(),
    }
}

/// The operation that is due for `repo`: a fetch where it is on disk, a clone where it is
/// not.
pub open spec fn operation_for(repo: RepoSyncInfo) -> GitOperationView {
    if repo.exists {
        GitOperationView::Fetch { path: repo.local_path@ }
    } else {
        GitOperationView::Clone { url: repo.url@, destination: repo.local_path@ }
    }
}

/// A Git operation, as texts.
pub enum GitOperationView {
    Clone { url: Seq<char>, destination: Seq<char> },
    Fetch { path: Seq<char> },
}

/// `operation` as texts.
pub open spec fn operation_view(operation: GitOperation) -> GitOperationView {
    match operation {
        GitOperation::Clone { url, destination } => GitOperationView::Clone {
            url: url@,
            destination: destination@,
        },
        GitOperation::Fetch { path } => GitOperationView::Fetch { path: path@ },
    }
}

/// The line that reports that `repo` could not be fetched or cloned, for the reason
/// `reason`.
pub open spec fn failure_line(repo: RepoSyncInfo, reason: Seq<char>) -> Seq<char> {
    if repo.exists {
        "Failed to fetch "@ + repo.name@ + ": "@ + reason
    } else {
        "Failed to clone "@ + repo.name@ + ": "@ + reason
    }
}

/// The report after the operation on `repo` ended: with `None`, a success, the count of
/// the fetched or of the cloned is one more; with a reason, the report has one more line.
pub open spec fn recorded(
    report: SyncReportView,
    repo: RepoSyncInfo,
    failure: Option<Seq<char>>,
) -> SyncReportView {
    match failure {
        Some(reason) => SyncReportView {
            errors: report.errors.push(failure_line(repo, reason)),
            ..report
        },
        None => if repo.exists {
            SyncReportView { repos_fetched: report.repos_fetched + 1, ..report }
        } else {
            SyncReportView { repos_cloned: report.repos_cloned + 1, ..report }
        },
    }
}

/// What an outcome tells of a failure: nothing for a success, the error in words else.
pub open spec fn failure_of(outcome: Result<(), SyncError>) -> Option<Seq<char>> {
    match outcome {
        Ok(_) => None,
        Err(error) => Some(error.text()),
    }
}

/// How far a run has come.
pub struct SyncState {
    /// The work list.
    pub repos: Seq<RepoSyncInfo>,
    /// The number of repositories whose operation has ended.
    pub visited: nat,
    /// Whether the run only tells what it would do.
    pub dry_run: bool,
    /// The report so far.
    pub report: SyncReportView,
}

/// The state in which a run over `repos` begins.
pub open spec fn sync_start(repos: Seq<RepoSyncInfo>, dry_run: bool) -> SyncState {
    SyncState { repos, visited: 0, dry_run, report: initial_report(repos) }
}

/// The run has nothing more to do: it only tells what it would do, or it has gone through
/// the work list.
pub open spec fn sync_is_done(state: SyncState) -> bool {
    state.dry_run || state.visited >= state.repos.len()
}

/// The state after the operation that was due has ended, with `None` for a success and
/// the reason for a failure. The next repository is due in either case. A run that is
/// done stays as it is.
pub open spec fn sync_recorded(state: SyncState, failure: Option<Seq<char>>) -> SyncState {
    if sync_is_done(state) {
        state
    } else {
        SyncState {
            visited: state.visited + 1,
            report: recorded(state.report, state.repos[state.visited as int], failure),
            ..state
        }
    }
}

/// The state after several operations have ended, one after the other.
pub open spec fn sync_run(state: SyncState, failures: Seq<Option<Seq<char>>>) -> SyncState
    decreases failures.len(),
{
    if failures.len() == 0 {
        state
    } else {
        sync_run(sync_recorded(state, failures.first()), failures.drop_first())
    }
}

/// What several outcomes tell of failures, one for one.
pub open spec fn failures_of(outcomes: Seq<Result<(), SyncError>>) -> Seq<Option<Seq<char>>> {
    outcomes.map_values(|outcome: Result<(), SyncError>| failure_of(outcome))
}

/// What holds of a run at every moment: the report counts the work list and its two
/// parts; what was cloned and fetched is at most what was visited of each part; and every
/// repository that was visited was cloned, fetched, or has its line among the errors.
pub open spec fn sync_consistent(state: SyncState) -> bool {
    let visited = state.repos.take(state.visited as int);
    &&& state.visited <= state.repos.len()
    &&& state.dry_run ==> state.visited == 0
    &&& state.report.total_repos == state.repos.len()
    &&& state.report.repos_to_clone == to_clone(state.repos).len()
    &&& state.report.repos_to_fetch == to_fetch(state.repos).len()
    &&& state.report.repos_cloned <= to_clone(visited).len()
    &&& state.report.repos_fetched <= to_fetch(visited).len()
    &&& state.report.repos_cloned + state.report.repos_fetched + state.report.errors.len()
        == state.visited
    &&& state.report.repos_skipped == 0
}

/// A run over a work list, repository by repository. The caller executes the operation
/// that `next_operation` gives, hands what came of it to `record`, and goes on until
/// there is no further operation.
pub struct SyncRun {
    repos: Vec<RepoSyncInfo>,
    visited: usize,
    dry_run: bool,
    report: SyncReport,
}

/// The report before anything is done: the size of the work list, and how many of its
/// repositories are to be cloned and how many to be fetched.
pub fn build_initial_report(repos: &[RepoSyncInfo]) -> (report: SyncReport)
    ensures
        report@ == initial_report(repos@),
{
    let mut report = SyncReport::new();
    report.total_repos = repos.len();
    let mut i: usize = 0;
    proof {
        reveal(Seq::filter);
    }
    while i < repos.len()
        invariant
            i <= repos.len(),
            report@ == (SyncReportView {
                total_repos: repos@.len(),
                ..initial_report(repos@.take(i as int))
            }),
            report.repos_to_clone + report.repos_to_fetch == i,
        decreases repos.len() - i,
    {
        proof {
            lemma_parts_step(repos@, i as int);
        }
        if repos[i].exists {
            report.repos_to_fetch += 1;
        } else {
            report.repos_to_clone += 1;
        }
        i += 1;
    }
    assert(repos@.take(i as int) =~= repos@);
    report
}

/// Begins a run over `repos` that executes the operations.
pub fn execute_sync(repos: Vec<RepoSyncInfo>) -> (run: SyncRun)
    ensures
        run.state() == sync_start(repos@, false),
{
    SyncRun::start(repos, false)
}

/// Begins the run that `options` ask for. Its work list is made of the standalone
/// entries of `config` that pass the filter and of the entries `discovered` in groups,
/// each placed below the directory that holds the manifest and classified by what
/// `workspace` holds. The run executes the operations, or, for a dry run, is done at once
/// and only tells what it would do.
pub fn sync_command(
    options: &SyncOptions,
    config: &RangerConfig,
    discovered: &Vec<RepoConfig>,
    workspace: &Workspace,
) -> (run: SyncRun)
    ensures
        info_views(run.state().repos) == analyses(
            entries_to_sync(config.repos@, option_text(options.target), discovered@),
            base_dir(options.config_path@),
            workspace@,
        ),
        run.state() == sync_start(run.state().repos, options.dry_run),
{
    let dir = base_dir_of(options.config_path.as_str());
    let repos = discover_repos(config, dir.as_str(), &options.target, discovered, workspace);
    SyncRun::start(repos, options.dry_run)
}

/// The manifest at `config_path`, given what came of loading it: `None` where there is no
/// file at the path. A complaint of the parser is passed on as such; any other failure
/// to load is wrapped.
pub fn load_config(
    config_path: &str,
    loaded: Option<Result<RangerConfig, ConfigLoadError>>,
) -> (config: Result<RangerConfig, SyncError>)
    ensures
        match loaded {
            None => config matches Err(SyncError::ConfigNotFound(path)) && path@ == config_path@,
            Some(Ok(manifest)) => config == Ok::<RangerConfig, SyncError>(manifest),
            Some(Err(ConfigLoadError::ParseError(reason))) => config == Err::<
                RangerConfig,
                SyncError,
            >(SyncError::ConfigParseError(reason)),
            Some(Err(other)) => config == Err::<RangerConfig, SyncError>(
                SyncError::ConfigLoadError(other),
            ),
        },
{
    match loaded {
        None => Err(SyncError::ConfigNotFound(config_path.to_owned())),
        Some(Ok(manifest)) => Ok(manifest),
        Some(Err(ConfigLoadError::ParseError(reason))) => Err(SyncError::ConfigParseError(reason)),
        Some(Err(other)) => Err(SyncError::ConfigLoadError(other)),
    }
}

/// What came of `operation`, given how its process went: a success, or a Git error with
/// the reason.
pub fn operation_outcome(
    operation: &GitOperation,
    exit: Result<ProcessExit, String>,
) -> (outcome: Result<(), SyncError>)
    ensures
        match git_failure(*operation, exit) {
            None => outcome.is_ok(),
            Some(reason) => outcome matches Err(SyncError::GitError(text)) && text@ == reason,
        },
{
    match operation.failure(exit) {
        None => Ok(()),
        Some(reason) => Err(SyncError::GitError(reason)),
    }
}

impl SyncRun {
    #[verifier::type_invariant]
    spec fn well_formed(self) -> bool {
        sync_consistent(self.state())
    }

    /// How far the run has come.
    pub closed spec fn state(&self) -> SyncState {
        SyncState {
            repos: self.repos@,
            visited: self.visited as nat,
            dry_run: self.dry_run,
            report: self.report@,
        }
    }

    /// Begins a run over `repos`.
    pub fn start(repos: Vec<RepoSyncInfo>, dry_run: bool) -> (run: Self)
        ensures
            run.state() == sync_start(repos@, dry_run),
    {
        let report = build_initial_report(repos.as_slice());
        proof {
            reveal(Seq::filter);
        }
        SyncRun { repos, visited: 0, dry_run, report }
    }

    /// The operation to execute next: that for the repository that is due, a fetch where
    /// it is on disk and a clone where it is not. `None` when the run is done.
    pub fn next_operation(&self) -> (operation: Option<GitOperation>)
        ensures
            sync_is_done(self.state()) ==> operation.is_none(),
            !sync_is_done(self.state()) ==> operation.is_some() && operation_view(
                operation.unwrap(),
            ) == operation_for(self.state().repos[self.state().visited as int]),
    {
        proof {
            use_type_invariant(self);
        }
        if self.dry_run || self.visited >= self.repos.len() {
            return None;
        }
        let repo = &self.repos[self.visited];
        if repo.exists {
            Some(GitOperation::Fetch { path: repo.local_path.clone() })
        } else {
            Some(
                GitOperation::Clone {
                    url: repo.url.clone(),
                    destination: repo.local_path.clone(),
                },
            )
        }
    }

    /// Takes in what came of the operation that `next_operation` gave.
    pub fn record(self, outcome: Result<(), SyncError>) -> (next: Self)
        ensures
            next.state() == sync_recorded(self.state(), failure_of(outcome)),
    {
        proof {
            use_type_invariant(&self);
        }
        if self.dry_run || self.visited >= self.repos.len() {
            return self;
        }
        let ghost before = self.state();
        let ghost failure = failure_of(outcome);
        let SyncRun { repos, visited, dry_run, report } = self;
        let mut report = report;
        let repo = &repos[visited];
        proof {
            lemma_parts_step(repos@, visited as int);
        }
        match outcome {
            Ok(_) => {
                if repo.exists {
                    report.repos_fetched += 1;
                } else {
                    report.repos_cloned += 1;
                }
            },
            Err(error) => {
                let reason = error.message();
                let mut line = if repo.exists {
                    chain("Failed to fetch ", repo.name.as_str())
                } else {
                    chain("Failed to clone ", repo.name.as_str())
                };
                line.append(": ");
                line.append(reason.as_str());
                report.errors.push(line);
            },
        }
        assert(report@.errors =~= recorded(before.report, repos@[visited as int], failure).errors);
        SyncRun { repos, visited: visited + 1, dry_run, report }
    }

    /// Takes in what came of several operations, one after the other, as `record` does.
    /// Outcomes that come after the end of the run change nothing.
    pub fn record_all(self, outcomes: Vec<Result<(), SyncError>>) -> (next: Self)
        ensures
            next.state() == sync_run(self.state(), failures_of(outcomes@)),
    {
        let ghost start = self.state();
        let ghost all = failures_of(outcomes@);
        let mut run = self;
        for outcome in iter: outcomes
            invariant
                iter.seq() == outcomes@,
                all == failures_of(outcomes@),
                run.state() == sync_run(start, all.take(iter.index() as int)),
        {
            proof {
                let done = all.take(iter.index() as int);
                lemma_sync_run_push(start, done, all[iter.index() as int]);
                assert(all.take(iter.index() + 1) =~= done.push(all[iter.index() as int]));
            }
            run = run.record(outcome);
        }
        assert(all.take(outcomes@.len() as int) =~= all);
        run
    }

    /// The repository that is due, if the run is not done.
    pub fn current(&self) -> (repo: Option<&RepoSyncInfo>)
        ensures
            sync_is_done(self.state()) ==> repo.is_none(),
            !sync_is_done(self.state()) ==> repo == Some(
                &self.state().repos[self.state().visited as int],
            ),
    {
        proof {
            use_type_invariant(self);
        }
        if self.dry_run || self.visited >= self.repos.len() {
            None
        } else {
            Some(&self.repos[self.visited])
        }
    }

    /// Whether the run is done.
    pub fn is_done(&self) -> (done: bool)
        ensures
            done == sync_is_done(self.state()),
    {
        self.dry_run || self.visited >= self.repos.len()
    }

    /// The work list.
    pub fn repos(&self) -> (repos: &Vec<RepoSyncInfo>)
        ensures
            repos@ == self.state().repos,
    {
        &self.repos
    }

    /// The report so far. What was cloned and fetched never exceeds what was to be, and
    /// once a run that executes is done, every repository of the work list was cloned,
    /// fetched, or has its line among the errors.
    pub fn report(&self) -> (report: &SyncReport)
        ensures
            report@ == self.state().report,
            sync_consistent(self.state()),
            report.repos_cloned <= report.repos_to_clone,
            report.repos_fetched <= report.repos_to_fetch,
            report.repos_to_clone + report.repos_to_fetch == report.total_repos,
            sync_is_done(self.state()) && !self.state().dry_run ==> report.repos_cloned
                + report.repos_fetched + report.errors@.len() == report.total_repos,
    {
        proof {
            use_type_invariant(self);
            lemma_report_adds_up(self.state());
        }
        &self.report
    }

    /// Ends the run and gives its report.
    pub fn finish(self) -> (report: SyncReport)
        ensures
            report@ == self.state().report,
    {
        self.report
    }
}

/// The run failed as a whole: at least one repository could not be cloned or fetched.
/// This is a judgment on the finished report; no failure ends a run early.
pub fn has_failures(report: &SyncReport) -> (failed: bool)
    ensures
        failed == (report@.errors.len() > 0),
{
    report.errors.len() > 0
}

/// A repository whose Git directory was found on disk is fetched and never cloned; one
/// whose Git directory was not found is cloned and never fetched.
pub proof fn lemma_found_is_fetched(
    repo: RepoSyncInfo,
    entry: RepoConfigView,
    base_dir: Seq<char>,
    found: Set<Seq<char>>,
)
    requires
        repo@ == analysis(entry, base_dir, found),
    ensures
        found.contains(git_dir(repo.local_path@)) <==> operation_for(repo) is Fetch,
        !found.contains(git_dir(repo.local_path@)) <==> operation_for(repo) is Clone,
{
}

/// A run begins in a consistent state.
pub proof fn lemma_start_is_consistent(repos: Seq<RepoSyncInfo>, dry_run: bool)
    ensures
        sync_consistent(sync_start(repos, dry_run)),
{
    reveal(Seq::filter);
}

/// Whatever comes of an operation, the run stays consistent, and unless it was done it
/// has visited one repository more: a failure does not end it.
pub proof fn lemma_step_keeps_consistent(state: SyncState, failure: Option<Seq<char>>)
    requires
        sync_consistent(state),
    ensures
        sync_consistent(sync_recorded(state, failure)),
        !sync_is_done(state) ==> sync_recorded(state, failure).visited == state.visited + 1,
{
    if !sync_is_done(state) {
        lemma_parts_step(state.repos, state.visited as int);
    }
}

/// In a consistent state the report adds up: the two parts make the work list, what was
/// cloned and fetched is at most what was to be, and when a run that executes is done,
/// successes and error lines together are as many as the repositories.
pub proof fn lemma_report_adds_up(state: SyncState)
    requires
        sync_consistent(state),
    ensures
        state.report.repos_to_clone + state.report.repos_to_fetch == state.report.total_repos,
        state.report.repos_cloned <= state.report.repos_to_clone,
        state.report.repos_fetched <= state.report.repos_to_fetch,
        sync_is_done(state) && !state.dry_run ==> state.report.repos_cloned
            + state.report.repos_fetched + state.report.errors.len() == state.report.total_repos,
{
    lemma_parts_grow(state.repos, state.visited as int, state.repos.len() as int);
    lemma_parts_make_whole(state.repos);
    assert(state.repos.take(state.repos.len() as int) =~= state.repos);
}

/// A run that executes and is handed one outcome for each repository ends done and
/// consistent, with every repository visited.
pub proof fn lemma_run_visits_every_repo(repos: Seq<RepoSyncInfo>, failures: Seq<Option<Seq<char>>>)
    requires
        failures.len() == repos.len(),
    ensures
        sync_run(sync_start(repos, false), failures).visited == repos.len(),
        sync_consistent(sync_run(sync_start(repos, false), failures)),
        sync_is_done(sync_run(sync_start(repos, false), failures)),
{
    lemma_start_is_consistent(repos, false);
    lemma_run_from(sync_start(repos, false), failures);
}

/// Outcomes that arrive one after the other are taken in one after the other.
pub proof fn lemma_sync_run_push(
    state: SyncState,
    failures: Seq<Option<Seq<char>>>,
    last: Option<Seq<char>>,
)
    ensures
        sync_run(state, failures.push(last)) == sync_recorded(sync_run(state, failures), last),
    decreases failures.len(),
{
    let all = failures.push(last);
    if failures.len() == 0 {
        assert(sync_run(sync_recorded(state, last), all.drop_first()) == sync_recorded(
            state,
            last,
        ));
    } else {
        assert(all.drop_first() =~= failures.drop_first().push(last));
        lemma_sync_run_push(sync_recorded(state, failures.first()), failures.drop_first(), last);
    }
}

proof fn lemma_run_from(state: SyncState, failures: Seq<Option<Seq<char>>>)
    requires
        sync_consistent(state),
        !state.dry_run,
        state.visited + failures.len() == state.repos.len(),
    ensures
        sync_run(state, failures).visited == state.repos.len(),
        sync_run(state, failures).repos == state.repos,
        sync_consistent(sync_run(state, failures)),
        sync_is_done(sync_run(state, failures)),
    decreases failures.len(),
{
    if failures.len() > 0 {
        lemma_step_keeps_consistent(state, failures.first());
        lemma_run_from(sync_recorded(state, failures.first()), failures.drop_first());
    }
}

/// One repository more among the visited is one more in the part it belongs to.
proof fn lemma_parts_step(repos: Seq<RepoSyncInfo>, i: int)
    requires
        0 <= i < repos.len(),
    ensures
        to_fetch(repos.take(i + 1)).len() == to_fetch(repos.take(i)).len() + if repos[i].exists {
            1int
        } else {
            0int
        },
        to_clone(repos.take(i + 1)).len() == to_clone(repos.take(i)).len() + if repos[i].exists {
            0int
        } else {
            1int
        },
{
    reveal(Seq::filter);
    assert(repos.take(i + 1).drop_last() =~= repos.take(i));
}

/// The parts of a longer beginning of the work list are no smaller.
proof fn lemma_parts_grow(repos: Seq<RepoSyncInfo>, i: int, j: int)
    requires
        0 <= i <= j <= repos.len(),
    ensures
        to_fetch(repos.take(i)).len() <= to_fetch(repos.take(j)).len(),
        to_clone(repos.take(i)).len() <= to_clone(repos.take(j)).len(),
    decreases j - i,
{
    if i < j {
        lemma_parts_grow(repos, i, j - 1);
        lemma_parts_step(repos, j - 1);
    }
}

/// Every repository is either to be fetched or to be cloned.
proof fn lemma_parts_make_whole(repos: Seq<RepoSyncInfo>)
    ensures
        to_fetch(repos).len() + to_clone(repos).len() == repos.len(),
    decreases repos.len(),
{
    reveal(Seq::filter);
    if repos.len() > 0 {
        lemma_parts_make_whole(repos.drop_last());
    }
}

} // verus!
