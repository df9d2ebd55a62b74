use nucleus::action::PluginAction;
use nucleus::bottom_panel::BottomTab;
use nucleus::palette::PaletteMode;
use nucleus::workspace::{FileWatchKind, PanelVisibility, Workspace, WorkspaceEffect};

fn ws() -> Workspace {
    Workspace::new(Some("/proj".to_string()), PanelVisibility::default_layout(), true)
}

#[test]
fn toggles_and_saves() {
    let mut w = ws();
    assert!(matches!(w.handle_action(PluginAction::ToggleSidebar), WorkspaceEffect::ScheduleSave));
    assert!(!w.panels.left_sidebar_open);
    w.handle_action(PluginAction::ToggleSidebar);
    assert_eq!(w.panels, PanelVisibility::default_layout());
    w.handle_action(PluginAction::ToggleTerminal);
    assert!(w.panels.bottom_panel_open);
    assert!(matches!(w.toggle_right_sidebar(), WorkspaceEffect::ScheduleSave));
    assert!(w.panels.right_sidebar_open);
    w.toggle_left_sidebar();
    w.toggle_bottom_panel();
    assert!(!w.panels.bottom_panel_open);
}

#[test]
fn open_panels() {
    let mut w = ws();
    w.panels.left_sidebar_open = false;
    w.handle_action(PluginAction::OpenPanel { id: "search".to_string() });
    assert_eq!(w.left_sidebar.active_panel, "search");
    assert!(w.panels.left_sidebar_open);
    w.handle_action(PluginAction::OpenPanel { id: "problems".to_string() });
    assert!(w.panels.bottom_panel_open);
    assert_eq!(w.bottom_panel.current_tab, BottomTab::Problems);
    w.handle_action(PluginAction::OpenPanel { id: "terminal".to_string() });
    assert_eq!(w.bottom_panel.current_tab, BottomTab::Terminal);
    assert!(matches!(w.handle_action(PluginAction::OpenPanel { id: "settings".to_string() }), WorkspaceEffect::Nothing));
    assert_eq!(w.editor_area.tabs[0].path, "nucleus://settings");
    assert!(matches!(w.handle_action(PluginAction::OpenPanel { id: "unknown".to_string() }), WorkspaceEffect::Nothing));
}

#[test]
fn tabs_through_actions() {
    let mut w = ws();
    w.handle_action(PluginAction::OpenTab { path: "a.rs".into(), title: "a.rs".into(), content: "x".into() });
    w.handle_action(PluginAction::OpenTab { path: "b.rs".into(), title: "b.rs".into(), content: "y".into() });
    assert!(matches!(w.handle_action(PluginAction::SaveActiveTab), WorkspaceEffect::Nothing));
    w.editor_area.take_editors_to_create();
    match w.handle_action(PluginAction::SaveActiveTab) {
        WorkspaceEffect::SaveEditor { tab_index } => assert_eq!(tab_index, 1),
        _ => panic!("the active editor is saved"),
    }
    w.handle_action(PluginAction::CloseTab { title: "a.rs".into() });
    assert_eq!(w.editor_area.tabs.len(), 1);
    w.handle_action(PluginAction::CloseTab { title: "zzz".into() });
    assert_eq!(w.editor_area.tabs.len(), 1);
    w.handle_action(PluginAction::OpenKeybindings);
    assert_eq!(w.editor_area.tabs[1].path, "nucleus://keybindings");
}

#[test]
fn palette_and_log_actions() {
    let mut w = ws();
    match w.handle_action(PluginAction::OpenFileFinder) {
        WorkspaceEffect::CollectFiles { root } => assert_eq!(root, "/proj"),
        _ => panic!("files are collected"),
    }
    assert!(w.command_palette.is_open);
    assert_eq!(w.command_palette.mode, PaletteMode::FileSearch);
    w.handle_action(PluginAction::OpenCommandPalette);
    assert_eq!(w.command_palette.mode, PaletteMode::CommandPalette);
    w.handle_action(PluginAction::ShowNotification { message: "hi".into() });
    assert_eq!(w.bottom_panel.logs, vec!["[Notification] hi".to_string()]);
    w.handle_action(PluginAction::TerminalClear);
    assert!(w.bottom_panel.logs.is_empty());
    let mut no_root = Workspace::new(None, PanelVisibility::default_layout(), false);
    assert!(matches!(no_root.handle_action(PluginAction::OpenFileFinder), WorkspaceEffect::Nothing));
}

#[test]
fn file_watcher_poll() {
    let w = ws();
    assert_eq!(w.poll_file_watcher(&vec![FileWatchKind::Other]), None);
    assert_eq!(w.poll_file_watcher(&vec![FileWatchKind::Other, FileWatchKind::Modified]), Some("/proj".to_string()));
    let no_root = Workspace::new(None, PanelVisibility::default_layout(), false);
    assert_eq!(no_root.poll_file_watcher(&vec![FileWatchKind::Created]), None);
}
