//! What the commands tell the user, line by line.

use vstd::prelude::*;
use vstd::string::*;
use crate::commands::ls::RepoInfo;
use crate::commands::status::{RepoStatus, StatusReport};
use crate::commands::sync::{to_clone, to_fetch, SyncReport, SyncReportView};
use crate::targets::RepoSyncInfo;
use crate::text::{chain, decimal, decimal_string, texts};

verus! {

/// A label and a number behind it.
pub open spec fn counted(label: Seq<char>, count: nat) -> Seq<char> {
    label + decimal(count)
}

/// The line that tells where `repo` would be cloned to.
pub open spec fn clone_line(repo: RepoSyncInfo) -> Seq<char> {
    "  - "@ + repo.name@ + " -> "@ + repo.local_path@
}

/// The line that tells where `repo` would be fetched.
pub open spec fn fetch_line(repo: RepoSyncInfo) -> Seq<char> {
    "  - "@ + repo.name@ + " ("@ + repo.local_path@ + ")"@
}

/// The lines for the repositories of `repos` that would be cloned, in their order.
pub open spec fn clone_lines(repos: Seq<RepoSyncInfo>) -> Seq<Seq<char>> {
    to_clone(repos).map_values(|repo: RepoSyncInfo| clone_line(repo))
}

/// The lines for the repositories of `repos` that would be fetched, in their order.
pub open spec fn fetch_lines(repos: Seq<RepoSyncInfo>) -> Seq<Seq<char>> {
    to_fetch(repos).map_values(|repo: RepoSyncInfo| fetch_line(repo))
}

/// What a dry run tells: the counts of `report`, then the repositories of `repos` that
/// would be cloned, each with its destination, and those that would be fetched, each with
/// its place, where the report counts any; and that nothing was changed.
pub open spec fn dry_run_report(report: SyncReportView, repos: Seq<RepoSyncInfo>) -> Seq<
    Seq<char>,
> {
    seq![
        ""@,
        "=== Dry Run Mode ==="@,
        counted("Total repositories: "@, report.total_repos),
        counted("Repos to clone: "@, report.repos_to_clone),
        counted("Repos to fetch: "@, report.repos_to_fetch),
    ] + (if report.repos_to_clone > 0 {
        seq![""@, "Would clone:"@] + clone_lines(repos)
    } else {
        Seq::empty()
    }) + (if report.repos_to_fetch > 0 {
        seq![""@, "Would fetch updates:"@] + fetch_lines(repos)
    } else {
        Seq::empty()
    }) + seq![""@, "No changes made. Run without --dry-run to execute."@]
}

/// What a run tells of itself at its end: the counts, and the number of errors if there
/// are any.
pub open spec fn sync_summary(report: SyncReportView) -> Seq<Seq<char>> {
    seq![
        ""@,
        "=== Sync Summary ==="@,
        counted("Total repositories: "@, report.total_repos),
        counted("Cloned: "@, report.repos_cloned),
        counted("Fetched: "@, report.repos_fetched),
    ] + (if report.errors.len() > 0 {
        seq![counted("Errors: "@, report.errors.len())]
    } else {
        Seq::empty()
    })
}

/// The errors of a run as the items of a list.
pub open spec fn sync_error_items(report: SyncReportView) -> Seq<Seq<char>> {
    report.errors.map_values(|error: Seq<char>| "  - "@ + error)
}

/// The line that tells the status of `repo`.
pub open spec fn status_line(repo: RepoStatus) -> Seq<char> {
    if repo.cloned {
        "\u{2713} "@ + repo.name@ + " - cloned ("@ + repo.local_path@ + ")"@
    } else {
        "\u{2717} "@ + repo.name@ + " - not cloned ("@ + repo.local_path@ + ")"@
    }
}

/// What the status query tells: the counts, then one line for each repository, or that
/// there is none.
pub open spec fn status_report(report: StatusReport) -> Seq<Seq<char>> {
    seq![
        ""@,
        "=== Repository Status ==="@,
        counted("Total repositories: "@, report.total_repos as nat),
        counted("Cloned: "@, report.repos_cloned as nat),
        counted("Not cloned: "@, report.repos_not_cloned as nat),
        ""@,
    ] + (if report.repos@.len() == 0 {
        seq!["No repositories configured."@]
    } else {
        report.repos@.map_values(|repo: RepoStatus| status_line(repo)).push(""@)
    })
}

/// The lines that the listing gives to `repo`: its name, its URL, its place, and an
/// empty line.
pub open spec fn listing_entry(repo: RepoInfo) -> Seq<Seq<char>> {
    seq![repo.name@, "  URL: "@ + repo.url@, "  Local Path: "@ + repo.local_path@, ""@]
}

/// The lines of the repositories of a listing, one repository after the other.
pub open spec fn listing_entries(repos: Seq<RepoInfo>) -> Seq<Seq<char>>
    decreases repos.len(),
{
    if repos.len() == 0 {
        Seq::empty()
    } else {
        listing_entries(repos.drop_last()) + listing_entry(repos.last())
    }
}

/// What the listing tells: the repositories and their number, or that there is none.
pub open spec fn repo_listing(repos: Seq<RepoInfo>) -> Seq<Seq<char>> {
    if repos.len() == 0 {
        seq!["No repositories configured."@]
    } else {
        seq![""@, "=== Configured Repositories ==="@, ""@] + listing_entries(repos) + seq![
            "Total: "@ + decimal(repos.len()) + " repositories"@,
        ]
    }
}

/// A label and a number behind it.
pub fn counted_line(label: &str, count: usize) -> (line: String)
    ensures
        line@ == counted(label@, count as nat),
{
    let number = decimal_string(count);
    chain(label, number.as_str())
}

/// What a dry run tells, line by line.
pub fn render_dry_run_report(report: &SyncReport, repos: &[RepoSyncInfo]) -> (lines: Vec<String>)
    ensures
        texts(lines@) == dry_run_report(report@, repos@),
{
    let mut lines: Vec<String> = Vec::new();
    lines.push("".to_owned());
    lines.push("=== Dry Run Mode ===".to_owned());
    lines.push(counted_line("Total repositories: ", report.total_repos));
    lines.push(counted_line("Repos to clone: ", report.repos_to_clone));
    lines.push(counted_line("Repos to fetch: ", report.repos_to_fetch));
    let ghost head = texts(lines@);
    assert(head =~= seq![
        ""@,
        "=== Dry Run Mode ==="@,
        counted("Total repositories: "@, report@.total_repos),
        counted("Repos to clone: "@, report@.repos_to_clone),
        counted("Repos to fetch: "@, report@.repos_to_fetch),
    ]);
    let ghost clones = if report@.repos_to_clone > 0 {
        seq![""@, "Would clone:"@] + clone_lines(repos@)
    } else {
        Seq::empty()
    };
    if report.repos_to_clone > 0 {
        lines.push("".to_owned());
        lines.push("Would clone:".to_owned());
        let ghost start = texts(lines@);
        let mut i: usize = 0;
        proof {
            lemma_lines_of_none(repos@);
        }
        while i < repos.len()
            invariant
                i <= repos.len(),
                texts(lines@) == start + clone_lines(repos@.take(i as int)),
            decreases repos.len() - i,
        {
            proof {
                lemma_lines_step(repos@, i as int);
            }
            if !repos[i].exists {
                let mut line = chain("  - ", repos[i].name.as_str());
                line.append(" -> ");
                line.append(repos[i].local_path.as_str());
                let ghost before = texts(lines@);
                let ghost added = line@;
                lines.push(line);
                assert(texts(lines@) =~= before.push(added));
            }
            i += 1;
        }
        assert(repos@.take(i as int) =~= repos@);
        assert(texts(lines@) =~= head + clones);
    }
    let ghost middle = texts(lines@);
    let ghost fetches = if report@.repos_to_fetch > 0 {
        seq![""@, "Would fetch updates:"@] + fetch_lines(repos@)
    } else {
        Seq::empty()
    };
    if report.repos_to_fetch > 0 {
        lines.push("".to_owned());
        lines.push("Would fetch updates:".to_owned());
        let ghost start = texts(lines@);
        let mut i: usize = 0;
        proof {
            lemma_lines_of_none(repos@);
        }
        while i < repos.len()
            invariant
                i <= repos.len(),
                texts(lines@) == start + fetch_lines(repos@.take(i as int)),
            decreases repos.len() - i,
        {
            proof {
                lemma_lines_step(repos@, i as int);
            }
            if repos[i].exists {
                let mut line = chain("  - ", repos[i].name.as_str());
                line.append(" (");
                line.append(repos[i].local_path.as_str());
                line.append(")");
                let ghost before = texts(lines@);
                let ghost added = line@;
                lines.push(line);
                assert(texts(lines@) =~= before.push(added));
            }
            i += 1;
        }
        assert(repos@.take(i as int) =~= repos@);
        assert(texts(lines@) =~= middle + fetches);
    }
    lines.push("".to_owned());
    lines.push("No changes made. Run without --dry-run to execute.".to_owned());
    lines
}

/// Before any repository is looked at, there are no lines.
proof fn lemma_lines_of_none(repos: Seq<RepoSyncInfo>)
    ensures
        clone_lines(repos.take(0)) == Seq::<Seq<char>>::empty(),
        fetch_lines(repos.take(0)) == Seq::<Seq<char>>::empty(),
{
    reveal(Seq::filter);
}

/// One repository more gives one line more in the list it belongs to.
proof fn lemma_lines_step(repos: Seq<RepoSyncInfo>, i: int)
    requires
        0 <= i < repos.len(),
    ensures
        clone_lines(repos.take(i + 1)) == if repos[i].exists {
            clone_lines(repos.take(i))
        } else {
            clone_lines(repos.take(i)).push(clone_line(repos[i]))
        },
        fetch_lines(repos.take(i + 1)) == if repos[i].exists {
            fetch_lines(repos.take(i)).push(fetch_line(repos[i]))
        } else {
            fetch_lines(repos.take(i))
        },
{
    reveal(Seq::filter);
    assert(repos.take(i + 1).drop_last() =~= repos.take(i));
}

/// What a run tells of itself at its end, line by line.
pub fn render_sync_summary(report: &SyncReport) -> (lines: Vec<String>)
    ensures
        texts(lines@) == sync_summary(report@),
{
    let mut lines: Vec<String> = Vec::new();
    lines.push("".to_owned());
    lines.push("=== Sync Summary ===".to_owned());
    lines.push(counted_line("Total repositories: ", report.total_repos));
    lines.push(counted_line("Cloned: ", report.repos_cloned));
    lines.push(counted_line("Fetched: ", report.repos_fetched));
    if report.errors.len() > 0 {
        lines.push(counted_line("Errors: ", report.errors.len()));
    }
    lines
}

/// The errors of a run as the items of a list, line by line.
pub fn render_sync_errors(report: &SyncReport) -> (lines: Vec<String>)
    ensures
        texts(lines@) == sync_error_items(report@),
{
    let mut lines: Vec<String> = Vec::new();
    let mut i: usize = 0;
    while i < report.errors.len()
        invariant
            i <= report.errors.len(),
            lines@.len() == i,
            forall|k: int| 0 <= k < i ==> (#[trigger] lines@[k])@ == "  - "@ + report.errors@[k]@,
        decreases report.errors.len() - i,
    {
        lines.push(chain("  - ", report.errors[i].as_str()));
        i += 1;
    }
    lines
}

/// What the status query tells, line by line.
pub fn render_status_report(report: &StatusReport) -> (lines: Vec<String>)
    ensures
        texts(lines@) == status_report(*report),
{
    let mut lines: Vec<String> = Vec::new();
    lines.push("".to_owned());
    lines.push("=== Repository Status ===".to_owned());
    lines.push(counted_line("Total repositories: ", report.total_repos));
    lines.push(counted_line("Cloned: ", report.repos_cloned));
    lines.push(counted_line("Not cloned: ", report.repos_not_cloned));
    lines.push("".to_owned());
    let ghost head = texts(lines@);
    if report.repos.len() == 0 {
        lines.push("No repositories configured.".to_owned());
        return lines;
    }
    let mut i: usize = 0;
    while i < report.repos.len()
        invariant
            i <= report.repos.len(),
            lines@.len() == 6 + i,
            texts(lines@).take(6) == head,
            forall|k: int|
                0 <= k < i ==> (#[trigger] lines@[6 + k])@ == status_line(report.repos@[k]),
        decreases report.repos.len() - i,
    {
        let repo = &report.repos[i];
        let mut line = if repo.cloned {
            chain("\u{2713} ", repo.name.as_str())
        } else {
            chain("\u{2717} ", repo.name.as_str())
        };
        if repo.cloned {
            line.append(" - cloned (");
        } else {
            line.append(" - not cloned (");
        }
        line.append(repo.local_path.as_str());
        line.append(")");
        lines.push(line);
        i += 1;
    }
    lines.push("".to_owned());
    assert(texts(lines@) =~= head + report.repos@.map_values(
        |repo: RepoStatus| status_line(repo),
    ).push(""@)) by {
        let got = texts(lines@);
        let want = head + report.repos@.map_values(|repo: RepoStatus| status_line(repo)).push(
            ""@,
        );
        assert forall|k: int| 0 <= k < got.len() implies got[k] == want[k] by {
            if 6 <= k < 6 + i {
                assert(got[k] == lines@[6 + (k - 6)]@);
            }
        }
    }
    lines
}

/// What the listing tells, line by line.
pub fn render_repo_listing(repos: &[RepoInfo]) -> (lines: Vec<String>)
    ensures
        texts(lines@) == repo_listing(repos@),
{
    let mut lines: Vec<String> = Vec::new();
    if repos.len() == 0 {
        lines.push("No repositories configured.".to_owned());
        return lines;
    }
    lines.push("".to_owned());
    lines.push("=== Configured Repositories ===".to_owned());
    lines.push("".to_owned());
    let ghost head = texts(lines@);
    assert(head =~= seq![""@, "=== Configured Repositories ==="@, ""@]);
    let mut i: usize = 0;
    while i < repos.len()
        invariant
            i <= repos.len(),
            texts(lines@) == head + listing_entries(repos@.take(i as int)),
        decreases repos.len() - i,
    {
        let repo = &repos[i];
        let ghost before = texts(lines@);
        lines.push(repo.name.clone());
        lines.push(chain("  URL: ", repo.url.as_str()));
        lines.push(chain("  Local Path: ", repo.local_path.as_str()));
        lines.push("".to_owned());
        proof {
            assert(repos@.take(i + 1).drop_last() =~= repos@.take(i as int));
            assert(texts(lines@) =~= before + listing_entry(repos@[i as int]));
        }
        i += 1;
    }
    assert(repos@.take(i as int) =~= repos@);
    let number = decimal_string(repos.len());
    let mut total = chain("Total: ", number.as_str());
    total.append(" repositories");
    lines.push(total);
    lines
}

} // verus!
