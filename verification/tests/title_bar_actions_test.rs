use nucleus::action::PluginAction;
use nucleus::title_bar::{MenuAction, MenuEntry, MenuId, TitleBar};

#[test]
fn test_title_bar_menu_action_variants() {
    // 全メニュー項目に対応する PluginAction バリアントが網羅されていることをテスト
    let actions = vec![
        PluginAction::OpenFilePicker,
        PluginAction::OpenFolderPicker,
        PluginAction::SaveActiveTab,
        PluginAction::SaveAsActiveTab,
        PluginAction::CloseActiveTab,
        PluginAction::EditorUndo,
        PluginAction::EditorRedo,
        PluginAction::EditorCut,
        PluginAction::EditorCopy,
        PluginAction::EditorPaste,
        PluginAction::EditorSelectAll,
        PluginAction::EditorFind,
        PluginAction::EditorReplace,
        PluginAction::OpenDocumentation,
        PluginAction::OpenCommandPalette,
        PluginAction::OpenSettings,
        PluginAction::OpenKeybindings,
        PluginAction::ToggleSidebar,
        PluginAction::ToggleTerminal,
    ];

    assert_eq!(actions.len(), 19, "All 19 title bar action variants should exist and be testable");
}

#[test]
fn menus_open_and_close() {
    let mut t = TitleBar::new();
    t.toggle_menu(MenuId::File);
    assert_eq!(t.active_menu, Some(MenuId::File));
    t.toggle_menu(MenuId::Edit);
    assert_eq!(t.active_menu, Some(MenuId::Edit));
    t.toggle_menu(MenuId::Edit);
    assert_eq!(t.active_menu, None);
    t.toggle_menu(MenuId::Help);
    t.close_menu();
    assert_eq!(t.active_menu, None);
}

#[test]
fn menu_contents() {
    let titles: Vec<&str> = TitleBar::menu_bar().iter().map(|m| m.title()).collect();
    assert_eq!(titles, vec!["File", "Edit", "Selection", "View", "Run", "Terminal", "Help"]);
    let file = TitleBar::menu_entries(MenuId::File);
    assert_eq!(file.len(), 9);
    match &file[0] {
        MenuEntry::Item { title, shortcut, action: MenuAction::Dispatch(PluginAction::OpenTab { path, .. }) } => {
            assert_eq!(*title, "New File");
            assert_eq!(*shortcut, Some("Ctrl+N"));
            assert_eq!(path, "Untitled");
        }
        _ => panic!("New File opens an untitled tab"),
    }
    assert!(matches!(file[3], MenuEntry::Separator));
    assert!(matches!(file[8], MenuEntry::Item { action: MenuAction::Quit, .. }));
    let edit = TitleBar::menu_entries(MenuId::Edit);
    match &edit[9] {
        MenuEntry::Item { action: MenuAction::Dispatch(PluginAction::OpenPanel { id }), .. } => assert_eq!(id, "search"),
        _ => panic!("Find in Files opens the search panel"),
    }
    assert_eq!(TitleBar::menu_entries(MenuId::Terminal).len(), 2);
    assert_eq!(TitleBar::menu_entries(MenuId::Help).len(), 5);
}
