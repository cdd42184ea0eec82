use git_ranger::workspace::Workspace;

#[test]
fn workspace_knows_what_was_added() {
    let mut workspace = Workspace::new();
    assert!(!workspace.contains("/a/.git"));
    workspace.add("/a/.git".to_string());
    workspace.add("/b/.git".to_string());
    assert!(workspace.contains("/a/.git"));
    assert!(workspace.contains("/b/.git"));
    assert!(!workspace.contains("/a"));
    assert!(!workspace.contains("/a/.git/"));
}

#[test]
fn repository_is_cloned_if_its_git_dir_was_found() {
    let mut workspace = Workspace::new();
    workspace.add("/w/standalone/test-repo/.git".to_string());
    assert!(workspace.has_repository("/w/standalone/test-repo"));
    assert!(workspace.has_repository("/w/standalone/test-repo/"));
    assert!(!workspace.has_repository("/w/standalone"));
    assert!(!workspace.has_repository("/w/standalone/other"));
}
