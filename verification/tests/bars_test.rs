use nucleus::left_sidebar::{search_rows, sidebar_content, LeftSidebar, SearchMatch, SearchResult, SearchRow, SidebarContent};
use nucleus::action::PluginAction;
use nucleus::activity_bar::ActivityBar;
use nucleus::editor_area::EditorArea;
use nucleus::status_bar::{StatusBar, StatusBarAlignment, StatusBarItem};

#[test]
fn activity_bar_entries() {
    assert!(ActivityBar::is_git_item("git_sidebar", "x"));
    assert!(ActivityBar::is_git_item("p", "source_control"));
    assert!(ActivityBar::is_git_item("p", "git"));
    assert!(!ActivityBar::is_git_item("p", "files"));
    assert_eq!(ActivityBar::item_label("debugger"), "DE");
    assert_eq!(ActivityBar::item_label("x"), "X");
    assert_eq!(ActivityBar::item_label(""), "");
    assert_eq!(ActivityBar::git_badge(true, 12), Some("12".to_string()));
    assert_eq!(ActivityBar::git_badge(true, 0), None);
    assert_eq!(ActivityBar::git_badge(false, 3), None);
}

fn item(text: &str, alignment: StatusBarAlignment) -> StatusBarItem {
    StatusBarItem { text: text.to_string(), command: None, alignment }
}

#[test]
fn status_bar_sides() {
    let items = vec![
        item("a", StatusBarAlignment::Right),
        item("b", StatusBarAlignment::Left),
        item("c", StatusBarAlignment::Right),
    ];
    let (left, right) = StatusBar::split_items(&items);
    assert_eq!(left, vec![1]);
    assert_eq!(right, vec![0, 2]);
    match StatusBar::problems_action() {
        PluginAction::OpenPanel { id } => assert_eq!(id, "problems"),
        _ => panic!("the counter opens the problem list"),
    }
}

#[test]
fn language_comes_from_the_file_name() {
    assert_eq!(EditorArea::detect_language("lib.rs/Pipfile"), "toml");
    assert_eq!(EditorArea::detect_language("notes.md"), "markdown");
}

#[test]
fn sidebar_search_and_replace_requests() {
    let mut s = LeftSidebar::new(None);
    s.search_query = "foo".to_string();
    s.replace_query = "bar".to_string();
    assert_eq!(s.execute_search(), None);
    s.set_root(Some("/proj".to_string()));
    s.toggle_case_sensitive();
    assert_eq!(s.execute_search(), Some(("/proj".to_string(), "foo".to_string(), true)));
    assert_eq!(s.execute_replace_all(), Some(("foo".to_string(), "bar".to_string())));
    s.search_query = String::new();
    assert_eq!(s.execute_replace_all(), None);
}

fn found(path: &str, lines: &[usize]) -> SearchResult {
    SearchResult {
        file_path: format!("/proj/{}", path),
        relative_path: path.to_string(),
        matches: lines.iter().map(|&n| SearchMatch { line_number: n, line_text: "foo".to_string() }).collect(),
    }
}

#[test]
fn search_summary_counts_matches_and_files() {
    let mut s = LeftSidebar::new(Some("/proj".to_string()));
    assert_eq!(s.search_summary(), "No search results");
    s.set_search_results(vec![found("a.rs", &[1, 4]), found("b.rs", &[10])]);
    assert_eq!(s.search_summary(), "3 results in 2 files");
    s.set_search_results(vec![found("c.rs", &[])]);
    assert_eq!(s.search_summary(), "0 results in 1 files");
    let many: Vec<usize> = (1..=12).collect();
    s.set_search_results(vec![found("d.rs", &many)]);
    assert_eq!(s.search_summary(), "12 results in 1 files");
}

#[test]
fn activity_bar_clicks() {
    match ActivityBar::explorer_click() {
        PluginAction::OpenPanel { id } => assert_eq!(id, "explorer"),
        _ => panic!("the explorer icon opens a panel"),
    }
    assert_eq!(ActivityBar::item_click("git.refresh"), Some("git.refresh".to_string()));
    assert_eq!(ActivityBar::item_click(""), None);
}

#[test]
fn search_rows_list_files_then_matches() {
    let results = vec![
        SearchResult {
            file_path: "/p/src/a.rs".to_string(),
            relative_path: "src/a.rs".to_string(),
            matches: vec![
                SearchMatch { line_number: 3, line_text: "    let foo = 1;\t".to_string() },
                SearchMatch { line_number: 9, line_text: "foo()".to_string() },
            ],
        },
        SearchResult { file_path: "/p/b.rs".to_string(), relative_path: "b.rs".to_string(), matches: vec![
            SearchMatch { line_number: 1, line_text: " \u{3000}foo bar ".to_string() },
        ] },
    ];
    let rows = search_rows(&results);
    assert_eq!(rows.len(), 5);
    match &rows[0] {
        SearchRow::File { relative_path, match_count } => {
            assert_eq!(relative_path, "src/a.rs");
            assert_eq!(*match_count, 2);
        }
        _ => panic!("a file heading comes first"),
    }
    match &rows[1] {
        SearchRow::Match { file_path, line_number, line_text } => {
            assert_eq!(file_path, "/p/src/a.rs");
            assert_eq!(*line_number, 3);
            assert_eq!(line_text, "let foo = 1;");
        }
        _ => panic!("a match row follows"),
    }
    assert!(matches!(&rows[3], SearchRow::File { relative_path, match_count: 1 } if relative_path == "b.rs"));
    assert!(matches!(&rows[4], SearchRow::Match { line_text, line_number: 1, .. } if line_text == "foo bar"));
    assert!(search_rows(&Vec::new()).is_empty());
}

#[test]
fn sidebar_panel_choice() {
    let ids = vec!["outline".to_string(), "git_sidebar".to_string(), "git".to_string()];
    assert!(matches!(sidebar_content("explorer", &ids), SidebarContent::Explorer));
    assert!(matches!(sidebar_content("search", &ids), SidebarContent::Search));
    assert!(matches!(sidebar_content("git", &ids), SidebarContent::Plugin { index: 1 }));
    assert!(matches!(sidebar_content("git_sidebar", &ids), SidebarContent::Plugin { index: 1 }));
    assert!(matches!(sidebar_content("outline", &ids), SidebarContent::Plugin { index: 0 }));
    match sidebar_content("debug", &ids) {
        SidebarContent::NotFound { message } => assert_eq!(message, "Sidebar 'debug' not found"),
        _ => panic!("no sidebar serves debug"),
    }
}
