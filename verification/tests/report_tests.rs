use git_ranger::commands::ls::RepoInfo;
use git_ranger::commands::status::{RepoStatus, StatusReport};
use git_ranger::commands::sync::{build_initial_report, SyncReport};
use git_ranger::report::{
    counted_line, render_dry_run_report, render_repo_listing, render_status_report,
    render_sync_errors, render_sync_summary,
};
use git_ranger::targets::RepoSyncInfo;

fn target(name: &str, exists: bool) -> RepoSyncInfo {
    RepoSyncInfo {
        url: format!("git@host:group/{}.git", name),
        name: name.to_string(),
        local_path: format!("/w/{}", name),
        exists,
    }
}

#[test]
fn counted_line_writes_the_number_behind_the_label() {
    assert_eq!(counted_line("Cloned: ", 12), "Cloned: 12");
    assert_eq!(counted_line("", 0), "0");
}

#[test]
fn dry_run_report_lists_both_parts() {
    let repos = vec![target("a", false), target("b", true), target("c", false)];
    let report = build_initial_report(&repos);
    assert_eq!(
        render_dry_run_report(&report, &repos),
        vec![
            "",
            "=== Dry Run Mode ===",
            "Total repositories: 3",
            "Repos to clone: 2",
            "Repos to fetch: 1",
            "",
            "Would clone:",
            "  - a -> /w/a",
            "  - c -> /w/c",
            "",
            "Would fetch updates:",
            "  - b (/w/b)",
            "",
            "No changes made. Run without --dry-run to execute.",
        ]
    );
}

#[test]
fn dry_run_report_leaves_out_an_empty_part() {
    let repos = vec![target("b", true)];
    let report = build_initial_report(&repos);
    assert_eq!(
        render_dry_run_report(&report, &repos),
        vec![
            "",
            "=== Dry Run Mode ===",
            "Total repositories: 1",
            "Repos to clone: 0",
            "Repos to fetch: 1",
            "",
            "Would fetch updates:",
            "  - b (/w/b)",
            "",
            "No changes made. Run without --dry-run to execute.",
        ]
    );
    assert_eq!(
        render_dry_run_report(&SyncReport::new(), &[]),
        vec![
            "",
            "=== Dry Run Mode ===",
            "Total repositories: 0",
            "Repos to clone: 0",
            "Repos to fetch: 0",
            "",
            "No changes made. Run without --dry-run to execute.",
        ]
    );
}

#[test]
fn sync_summary_tells_the_counts() {
    let mut report = SyncReport::new();
    report.total_repos = 3;
    report.repos_cloned = 1;
    report.repos_fetched = 2;
    assert_eq!(
        render_sync_summary(&report),
        vec!["", "=== Sync Summary ===", "Total repositories: 3", "Cloned: 1", "Fetched: 2"]
    );
    assert_eq!(render_sync_errors(&report), Vec::<String>::new());
}

#[test]
fn sync_summary_counts_and_lists_the_errors() {
    let mut report = SyncReport::new();
    report.total_repos = 2;
    report.errors.push("Failed to clone a: Git operation failed: x".to_string());
    report.errors.push("Failed to fetch b: Git operation failed: y".to_string());
    assert_eq!(
        render_sync_summary(&report),
        vec![
            "",
            "=== Sync Summary ===",
            "Total repositories: 2",
            "Cloned: 0",
            "Fetched: 0",
            "Errors: 2",
        ]
    );
    assert_eq!(
        render_sync_errors(&report),
        vec![
            "  - Failed to clone a: Git operation failed: x",
            "  - Failed to fetch b: Git operation failed: y",
        ]
    );
}

#[test]
fn status_report_has_one_line_for_each_repository() {
    let report = StatusReport {
        total_repos: 2,
        repos_cloned: 1,
        repos_not_cloned: 1,
        repos: vec![
            RepoStatus { name: "a".to_string(), local_path: "/w/a".to_string(), cloned: true },
            RepoStatus { name: "b".to_string(), local_path: "/w/b".to_string(), cloned: false },
        ],
    };
    assert_eq!(
        render_status_report(&report),
        vec![
            "",
            "=== Repository Status ===",
            "Total repositories: 2",
            "Cloned: 1",
            "Not cloned: 1",
            "",
            "✓ a - cloned (/w/a)",
            "✗ b - not cloned (/w/b)",
            "",
        ]
    );
}

#[test]
fn status_report_without_repositories_says_so() {
    assert_eq!(
        render_status_report(&StatusReport::new()),
        vec![
            "",
            "=== Repository Status ===",
            "Total repositories: 0",
            "Cloned: 0",
            "Not cloned: 0",
            "",
            "No repositories configured.",
        ]
    );
}

#[test]
fn listing_has_four_lines_for_each_repository_and_a_total() {
    let repos = vec![
        RepoInfo {
            name: "a".to_string(),
            url: "git@host:g/a.git".to_string(),
            local_path: "/w/a".to_string(),
        },
        RepoInfo {
            name: "b".to_string(),
            url: "https://host/g/b.git".to_string(),
            local_path: "/w/d/b".to_string(),
        },
    ];
    assert_eq!(
        render_repo_listing(&repos),
        vec![
            "",
            "=== Configured Repositories ===",
            "",
            "a",
            "  URL: git@host:g/a.git",
            "  Local Path: /w/a",
            "",
            "b",
            "  URL: https://host/g/b.git",
            "  Local Path: /w/d/b",
            "",
            "Total: 2 repositories",
        ]
    );
}

#[test]
fn listing_without_repositories_says_so() {
    assert_eq!(render_repo_listing(&[]), vec!["No repositories configured."]);
}
