use nucleus::editor_area::{language_for_file_name, AreaContent, EditorArea, QuickFixItem};

fn paths(a: &EditorArea) -> Vec<String> {
    a.tabs.iter().map(|t| t.path.clone()).collect()
}

fn area_with(paths: &[&str]) -> EditorArea {
    let mut a = EditorArea::new();
    for p in paths {
        a.open_tab(p.to_string(), p.to_string(), format!("// {}", p));
    }
    a
}

#[test]
fn open_tab_adds_or_focuses() {
    let mut a = area_with(&["a.rs", "b.rs"]);
    assert_eq!(paths(&a), vec!["a.rs", "b.rs"]);
    assert_eq!(a.active_tab, 1);
    assert_eq!(a.pending_contents.len(), 2);
    a.open_tab("a.rs".to_string(), "again".to_string(), "new".to_string());
    assert_eq!(paths(&a), vec!["a.rs", "b.rs"]);
    assert_eq!(a.active_tab, 0);
    assert_eq!(a.tabs[0].title, "a.rs");
    assert_eq!(a.pending_contents[0].content, "// a.rs");
}

#[test]
fn close_tab_clamps_active() {
    let mut a = area_with(&["a", "b", "c"]);
    a.open_context_menu(2);
    a.close_tab(2);
    assert_eq!(paths(&a), vec!["a", "b"]);
    assert_eq!(a.active_tab, 1);
    assert!(a.context_menu.is_none());
    a.select_tab(0);
    a.close_tab(1);
    assert_eq!(a.active_tab, 0);
    a.close_tab(7);
    assert_eq!(paths(&a), vec!["a"]);
    a.close_tab(0);
    assert!(a.tabs.is_empty());
    assert_eq!(a.active_tab, 0);
}

#[test]
fn close_others_and_to_the_right() {
    let mut a = area_with(&["a", "b", "c", "d"]);
    a.close_to_right(1);
    assert_eq!(paths(&a), vec!["a", "b"]);
    assert_eq!(a.active_tab, 1);
    a.close_others(0);
    assert_eq!(paths(&a), vec!["a"]);
    assert_eq!(a.active_tab, 0);
    a.close_all();
    assert!(a.tabs.is_empty());
}

#[test]
fn close_saved_keeps_dirty_editors() {
    let mut a = area_with(&["a", "b", "c", "d"]);
    for t in a.tabs.iter_mut() {
        t.has_editor = true;
    }
    a.tabs[3].has_editor = false;
    a.select_tab(3);
    a.close_saved(&vec![false, true, false, true]);
    assert_eq!(paths(&a), vec!["b"]);
    assert_eq!(a.active_tab, 0);
}

#[test]
fn close_then_reopen_restores_list() {
    let mut a = area_with(&["a", "b"]);
    let before = paths(&a);
    a.open_tab("c".to_string(), "c".to_string(), String::new());
    let active = a.active_tab;
    a.close_tab(active);
    assert_eq!(paths(&a), before);
}

#[test]
fn built_in_pages() {
    let mut a = area_with(&["a"]);
    a.open_settings();
    assert_eq!(a.tabs[1].path, "nucleus://settings");
    assert_eq!(a.tabs[1].title, "Settings");
    assert!(a.tabs[1].has_settings_view);
    a.open_keybindings();
    assert_eq!(a.tabs[2].title, "Keyboard Shortcuts");
    a.open_settings();
    assert_eq!(a.tabs.len(), 3);
    assert_eq!(a.active_tab, 1);
}

#[test]
fn editors_are_created_for_pending_text() {
    let mut a = area_with(&["a.rs"]);
    a.open_settings();
    let made = a.take_editors_to_create();
    assert_eq!(made.len(), 1);
    assert_eq!(made[0].tab_index, 0);
    assert_eq!(made[0].content, "// a.rs");
    assert!(a.tabs[0].has_editor);
    assert!(a.pending_contents.is_empty());
    assert!(a.take_editors_to_create().is_empty());
}

#[test]
fn reload_only_clean_tabs() {
    let mut a = area_with(&["a.rs"]);
    a.take_editors_to_create();
    assert!(!a.reload_tab_if_clean("a.rs", true, Some("x".to_string())));
    assert!(!a.reload_tab_if_clean("b.rs", false, Some("x".to_string())));
    assert!(!a.reload_tab_if_clean("a.rs", false, None));
    assert!(a.reload_tab_if_clean("a.rs", false, Some("fresh".to_string())));
    assert!(!a.tabs[0].has_editor);
    assert_eq!(a.pending_contents[0].content, "fresh");
}

#[test]
fn save_target_and_pending_close() {
    let mut a = area_with(&["a.rs", "b.rs"]);
    assert_eq!(a.save_active_tab(), None);
    a.take_editors_to_create();
    assert_eq!(a.save_active_tab(), Some(1));
    a.pending_close_tab = Some(0);
    a.apply_pending_close();
    assert_eq!(paths(&a), vec!["b.rs"]);
    assert!(a.pending_close_tab.is_none());
}

#[test]
fn rename_and_quick_fix() {
    let mut a = EditorArea::new();
    a.start_rename("total".to_string());
    let r = a.rename_state.as_ref().unwrap();
    assert_eq!(r.current_name, "total");
    assert_eq!(r.new_name, "total");
    a.show_quick_fix(vec![QuickFixItem { title: "Import".to_string(), action_id: "imp".to_string() }]);
    assert!(a.quick_fix_state.is_open);
    assert_eq!(a.quick_fix_state.items.len(), 1);
    assert!(a.quick_fix_visible());
    a.close_quick_fix();
    assert!(!a.quick_fix_visible());
    assert_eq!(a.quick_fix_state.items.len(), 1);
    a.show_quick_fix(Vec::new());
    assert!(!a.quick_fix_visible());
    a.close_rename();
    assert!(a.rename_state.is_none());
}

#[test]
fn languages() {
    assert_eq!(language_for_file_name("main.rs"), "rust");
    assert_eq!(language_for_file_name("Cargo.lock"), "toml");
    assert_eq!(language_for_file_name("yarn.lock"), "toml");
    assert_eq!(language_for_file_name("Pipfile"), "toml");
    assert_eq!(language_for_file_name("package.json"), "json");
    assert_eq!(language_for_file_name("index.js"), "javascript");
    assert_eq!(language_for_file_name("index.ts"), "typescript");
    assert_eq!(language_for_file_name("README.md"), "markdown");
    assert_eq!(language_for_file_name("ci.yml"), "yaml");
    assert_eq!(language_for_file_name("ci.yaml"), "yaml");
    assert_eq!(language_for_file_name(".rs"), "text");
    assert_eq!(language_for_file_name("notes"), "text");
    assert_eq!(EditorArea::detect_language("src/lib.rs"), "rust");
    assert_eq!(EditorArea::detect_language(""), "text");
}

#[test]
fn area_content_follows_the_active_tab() {
    let mut a = EditorArea::new();
    assert_eq!(a.active_content(), AreaContent::Welcome);
    a.open_tab("src/main.rs".to_string(), "main.rs".to_string(), "fn main() {}".to_string());
    assert_eq!(a.active_content(), AreaContent::Loading);
    let made = a.take_editors_to_create();
    assert_eq!(made.len(), 1);
    assert_eq!(a.active_content(), AreaContent::Editor);
    a.open_settings();
    assert_eq!(a.active_content(), AreaContent::Settings);
    a.open_keybindings();
    assert_eq!(a.active_content(), AreaContent::Keybindings);
    a.active_tab = 9;
    assert_eq!(a.active_content(), AreaContent::Blank);
    a.active_tab = 0;
    a.open_context_menu(0);
    assert!(a.context_menu.is_some());
    a.dismiss_context_menu();
    assert!(a.context_menu.is_none());
    assert_eq!(a.tabs.len(), 3);
}

#[test]
fn language_from_paths_with_folders() {
    assert_eq!(EditorArea::detect_language("src/main.rs"), "rust");
    assert_eq!(EditorArea::detect_language("a/config.yml"), "yaml");
    assert_eq!(EditorArea::detect_language("/home/u/Pipfile"), "toml");
    assert_eq!(EditorArea::detect_language("deps/yarn.lock"), "toml");
    assert_eq!(EditorArea::detect_language("src/Main.RS"), "text");
    assert_eq!(EditorArea::detect_language("docs/README"), "text");
}

#[test]
fn pending_close_moves_the_active_tab() {
    let mut a = EditorArea::new();
    a.open_tab("a.rs".to_string(), "a.rs".to_string(), String::new());
    a.open_tab("b.rs".to_string(), "b.rs".to_string(), String::new());
    a.open_tab("c.rs".to_string(), "c.rs".to_string(), String::new());
    assert_eq!(a.active_tab, 2);
    a.pending_close_tab = Some(2);
    a.apply_pending_close();
    assert_eq!(paths(&a), vec!["a.rs", "b.rs"]);
    assert_eq!(a.active_tab, 1);
    a.pending_close_tab = Some(7);
    a.apply_pending_close();
    assert_eq!(paths(&a), vec!["a.rs", "b.rs"]);
    assert_eq!(a.active_tab, 1);
    assert!(a.pending_close_tab.is_none());
}

#[test]
fn dirty_dot_needs_an_editor() {
    let mut a = EditorArea::new();
    a.open_tab("a.rs".to_string(), "a.rs".to_string(), "x".to_string());
    assert!(!a.shows_dirty_dot(0, true));
    a.take_editors_to_create();
    assert!(a.shows_dirty_dot(0, true));
    assert!(!a.shows_dirty_dot(0, false));
    assert!(!a.shows_dirty_dot(3, true));
}
