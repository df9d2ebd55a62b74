use nucleus::keybindings::KeybindingsView;

#[test]
fn empty_search_lists_all() {
    let v = KeybindingsView::new();
    assert_eq!(v.filtered_items().len(), 14);
}

#[test]
fn search_by_command_or_key_ignoring_case() {
    let mut v = KeybindingsView::new();
    v.query = "CTRL+S".to_string();
    let rows: Vec<&str> = v.filtered_items().iter().map(|r| r.command.as_str()).collect();
    assert_eq!(rows, vec!["workbench.action.showCommands", "workbench.action.files.save"]);
    v.query = "rename".to_string();
    let rows: Vec<&str> = v.filtered_items().iter().map(|r| r.key.as_str()).collect();
    assert_eq!(rows, vec!["F2"]);
    v.query = "nothing-like-this".to_string();
    assert!(v.filtered_items().is_empty());
}

#[test]
fn default_rows_and_function_key_search() {
    let rows = KeybindingsView::default_keybindings();
    assert_eq!(rows[2].command, "workbench.action.files.save");
    assert_eq!(rows[2].key, "Ctrl+S");
    assert_eq!(rows[2].when, "Editor");
    assert_eq!(rows[13].key, "F5");
    assert!(rows.iter().all(|r| r.source == "Default"));
    let mut v = KeybindingsView::new();
    v.query = "F12".to_string();
    let found: Vec<&str> = v.filtered_items().iter().map(|r| r.command.as_str()).collect();
    assert_eq!(found, vec!["editor.action.revealDefinition", "editor.action.goToReferences"]);
}
