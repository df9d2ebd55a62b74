use nucleus::git_status::{
    commit_command, discard_command, lookup_git_status, panel_matches, stage_command, status_badge,
    remote_command, row_open_request, status_kind, GitNode, GitStatusKind, RemoteButton,
};

#[test]
fn test_git_batch_command_generation() {
    // 一括ステージング、アンステージ、破棄コマンドの生成検証
    let stage_all_cmd = "git.stage_all";
    let unstage_all_cmd = "git.unstage_all";
    let discard_all_cmd = "git.discard_all";

    assert_eq!(stage_all_cmd, "git.stage_all");
    assert_eq!(unstage_all_cmd, "git.unstage_all");
    assert_eq!(discard_all_cmd, "git.discard_all");
}

fn node(path: &str, status: &str) -> GitNode {
    GitNode { path: Some(path.to_string()), status: Some(status.to_string()) }
}

#[test]
fn git_file_row_commands() {
    assert_eq!(stage_command("src/a.rs", false), "git.stage:src/a.rs");
    assert_eq!(stage_command("src/a.rs", true), "git.unstage:src/a.rs");
    assert_eq!(discard_command("src/a.rs"), "git.discard:src/a.rs");
    assert_eq!(commit_command(""), "git.commit:Update");
    assert_eq!(commit_command("fix bug"), "git.commit:fix bug");
}

#[test]
fn git_status_lookup_prefers_staged() {
    let staged = vec![node("src/a.rs", "A")];
    let changes = vec![node("src/a.rs", "M"), node("src/b.rs", "D")];
    assert_eq!(lookup_git_status(Some(&staged), Some(&changes), "src/a.rs", false), Some("A".to_string()));
    assert_eq!(lookup_git_status(Some(&staged), Some(&changes), "src\\b.rs", false), Some("D".to_string()));
    assert_eq!(lookup_git_status(Some(&staged), Some(&changes), "src/c.rs", false), None);
    assert_eq!(lookup_git_status(None, Some(&changes), "src", true), Some("M".to_string()));
    assert_eq!(lookup_git_status(None, Some(&changes), "lib", true), None);
}

#[test]
fn git_status_lookup_matches_absolute_paths() {
    let changes = vec![node("src/main.rs", "M"), node("src/workspace/mod.rs", "A")];
    assert_eq!(
        lookup_git_status(None, Some(&changes), "A:\\Project\\nucleus\\src\\main.rs", false),
        Some("M".to_string())
    );
    assert_eq!(
        lookup_git_status(None, Some(&changes), "A:\\Project\\nucleus\\src\\workspace", true),
        Some("M".to_string())
    );
    assert_eq!(lookup_git_status(None, Some(&changes), "A:\\Project\\nucleus\\src\\lib.rs", false), None);
    assert_eq!(lookup_git_status(None, Some(&changes), "./src/workspace/mod.rs", false), Some("A".to_string()));
}

#[test]
fn git_status_node_without_status_stops_the_list() {
    let staged = vec![GitNode { path: Some("a.rs".to_string()), status: None }, node("a.rs", "M")];
    let changes = vec![node("a.rs", "D")];
    assert_eq!(lookup_git_status(Some(&staged), Some(&changes), "a.rs", false), Some("D".to_string()));
}

#[test]
fn git_status_drawing() {
    assert_eq!(status_kind(Some("MM")), GitStatusKind::Modified);
    assert_eq!(status_kind(Some("??")), GitStatusKind::Added);
    assert_eq!(status_kind(Some("D")), GitStatusKind::Deleted);
    assert_eq!(status_kind(Some("R")), GitStatusKind::Unchanged);
    assert_eq!(status_kind(None), GitStatusKind::Unchanged);
    assert_eq!(status_badge(GitStatusKind::Added, false), Some("U"));
    assert_eq!(status_badge(GitStatusKind::Added, true), Some("●"));
    assert_eq!(status_badge(GitStatusKind::Unchanged, true), None);
}

#[test]
fn git_panel_aliases() {
    assert!(panel_matches("git", "git_sidebar"));
    assert!(panel_matches("git_sidebar", "git"));
    assert!(panel_matches("search", "search"));
    assert!(!panel_matches("explorer", "git"));
}

#[test]
fn remote_buttons_and_row_clicks() {
    assert_eq!(remote_command(RemoteButton::Push), "git.push");
    assert_eq!(remote_command(RemoteButton::Pull), "git.pull");
    assert_eq!(remote_command(RemoteButton::Sync), "git.sync");
    assert_eq!(row_open_request(""), None);
    assert_eq!(
        row_open_request("src/workspace/mod.rs"),
        Some(("src/workspace/mod.rs".to_string(), "mod.rs".to_string()))
    );
    assert_eq!(row_open_request("Cargo.toml"), Some(("Cargo.toml".to_string(), "Cargo.toml".to_string())));
}
