use nucleus::fuzzy::fuzzy_match;
use nucleus::palette::{filter_items, rank_by_score, CommandPalette, PaletteEffect, PaletteItem, PaletteMode};

#[test]
fn test_command_palette_modes_and_fuzzy_search() {
    let commands = vec![
        PaletteItem::Command { category: "Git".into(), title: "Commit".into(), command: "git.commit".into(), shortcut: None },
        PaletteItem::Command { category: "Git".into(), title: "Refresh Status".into(), command: "git.refresh".into(), shortcut: None },
        PaletteItem::Command { category: "File".into(), title: "Save".into(), command: "file.save".into(), shortcut: Some("Ctrl+S".into()) },
    ];

    // 1. コマンドパレット (Ctrl+Shift+P) ファジー検索
    let query = "git";
    let mut matched_commands = Vec::new();
    for cmd in &commands {
        if let PaletteItem::Command { category, title, .. } = cmd {
            let target = format!("{}: {}", category, title);
            if let Some(m) = fuzzy_match(query, &target) {
                matched_commands.push((m.score, cmd));
            }
        }
    }
    matched_commands.sort_by(|a, b| b.0.cmp(&a.0));
    assert_eq!(matched_commands.len(), 2);

    // 2. クイックファイルオープン (Ctrl+P) ファイル検索
    let files = vec![
        PaletteItem::File { path: "src/main.rs".into(), file_name: "main.rs".into(), dir: "src".into() },
        PaletteItem::File { path: "src/lib.rs".into(), file_name: "lib.rs".into(), dir: "src".into() },
        PaletteItem::File { path: "Cargo.toml".into(), file_name: "Cargo.toml".into(), dir: "".into() },
    ];

    let file_query = "main";
    let mut matched_files = Vec::new();
    for f in &files {
        if let PaletteItem::File { file_name, dir, .. } = f {
            let target = format!("{}/{}", dir, file_name);
            if let Some(m) = fuzzy_match(file_query, &target) {
                matched_files.push((m.score, f));
            }
        }
    }
    matched_files.sort_by(|a, b| b.0.cmp(&a.0));
    assert_eq!(matched_files.len(), 1);
}

fn file(path: &str, name: &str, dir: &str) -> PaletteItem {
    PaletteItem::File { path: path.into(), file_name: name.into(), dir: dir.into() }
}

fn paths(items: &[PaletteItem]) -> Vec<String> {
    items
        .iter()
        .map(|i| match i {
            PaletteItem::File { path, .. } => path.clone(),
            PaletteItem::Command { command, .. } => command.clone(),
        })
        .collect()
}

#[test]
fn palette_ranks_best_match_first() {
    let files = vec![
        file("a/xmxaxixn.rs", "xmxaxixn.rs", "a"),
        file("src/main.rs", "main.rs", "src"),
        file("Cargo.toml", "Cargo.toml", ""),
    ];
    let listed = filter_items("main", &files);
    assert_eq!(paths(&listed), vec!["src/main.rs", "a/xmxaxixn.rs"]);
}

#[test]
fn palette_ranking_is_stable() {
    let scored = vec![
        (10, file("one", "one", "")),
        (30, file("two", "two", "")),
        (10, file("three", "three", "")),
        (30, file("four", "four", "")),
    ];
    let ranked = rank_by_score(&scored);
    assert_eq!(paths(&ranked), vec!["two", "four", "one", "three"]);
}

#[test]
fn palette_lists_at_most_thirty() {
    let many: Vec<PaletteItem> = (0..45).map(|i| file(&format!("f{}", i), &format!("f{}.rs", i), "")).collect();
    assert_eq!(filter_items("", &many).len(), 30);
    assert_eq!(paths(&filter_items("", &many))[0], "f0");
    assert_eq!(filter_items("f", &many).len(), 30);
}

#[test]
fn palette_modes() {
    let mut p = CommandPalette::new();
    assert!(!p.is_open);
    assert_eq!(p.all_commands.len(), 12);
    p.query = "x".to_string();
    p.open_command_palette();
    assert!(p.is_open);
    assert_eq!(p.mode, PaletteMode::CommandPalette);
    assert_eq!(p.query, "");
    assert_eq!(p.filtered_items().len(), 12);
    p.query = "git".to_string();
    assert_eq!(paths(&p.filtered_items()), vec!["git.commit", "git.refresh"]);
    assert_eq!(p.filtered_items_checked().map(|v| v.len()), Some(2));
    p.open_file_search(Some(vec![file("src/main.rs", "main.rs", "src")]));
    assert_eq!(p.mode, PaletteMode::FileSearch);
    assert_eq!(p.all_files.len(), 1);
    p.open_file_search(None);
    assert_eq!(p.all_files.len(), 1);
    p.close();
    assert!(!p.is_open);
}

#[test]
fn palette_execute_item() {
    let mut p = CommandPalette::new();
    p.open_command_palette();
    match p.execute_item(&file("src/main.rs", "main.rs", "src")) {
        PaletteEffect::OpenFile { path, title } => {
            assert_eq!(path, "src/main.rs");
            assert_eq!(title, "main.rs");
        }
        _ => panic!("a file opens"),
    }
    assert!(!p.is_open);
    let cmd = p.all_commands[1].clone();
    match p.execute_item(&cmd) {
        PaletteEffect::RunCommand { command } => assert_eq!(command, "file.save"),
        _ => panic!("a command runs"),
    }
}

#[test]
fn palette_selected_row_is_clamped() {
    let mut p = CommandPalette::new();
    p.selected_index = 7;
    assert_eq!(p.selected_row(3), 2);
    assert_eq!(p.selected_row(10), 7);
    assert_eq!(p.selected_row(0), 0);
}

#[test]
fn palette_skips_build_folders() {
    assert!(!CommandPalette::should_descend("target"));
    assert!(!CommandPalette::should_descend(".git"));
    assert!(!CommandPalette::should_descend("node_modules"));
    assert!(!CommandPalette::should_descend(".nucleus"));
    assert!(CommandPalette::should_descend("src"));
}

#[test]
fn palette_placeholders() {
    let mut p = CommandPalette::new();
    assert_eq!(p.placeholder(), "Search files by name (e.g. main.rs, Cargo.toml)...");
    p.open_command_palette();
    assert_eq!(p.placeholder(), "Type a command to execute...");
}

#[test]
fn default_commands_in_order() {
    let cmds = CommandPalette::default_commands();
    let rows: Vec<(String, String, String, Option<String>)> = cmds
        .iter()
        .map(|c| match c {
            PaletteItem::Command { title, category, command, shortcut } => {
                (category.clone(), title.clone(), command.clone(), shortcut.clone())
            }
            PaletteItem::File { .. } => panic!("a file among the commands"),
        })
        .collect();
    assert_eq!(rows.len(), 12);
    assert_eq!(rows[1], ("File".to_string(), "Save".to_string(), "file.save".to_string(), Some("Ctrl+S".to_string())));
    assert_eq!(rows[2], ("File".to_string(), "Save All".to_string(), "file.save_all".to_string(), None));
    assert_eq!(rows[11].2, "preferences.open_settings");
    assert_eq!(CommandPalette::new().all_commands.len(), 12);
}

#[test]
fn file_items_carry_their_folder() {
    let check = |rel: &str, dir_expected: &str| match CommandPalette::file_item("/root/x", rel, "x.rs") {
        PaletteItem::File { path, file_name, dir } => {
            assert_eq!(path, "/root/x");
            assert_eq!(file_name, "x.rs");
            assert_eq!(dir, dir_expected);
        }
        _ => panic!("a file item"),
    };
    check("src/workspace/x.rs", "src/workspace");
    check("src\\workspace\\x.rs", "src/workspace");
    check("x.rs", "");
}
