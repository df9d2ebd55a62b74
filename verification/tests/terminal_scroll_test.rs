use nucleus::bottom_panel::{terminal_view_lines, visible_lines_range, BottomPanel, BottomTab, TerminalKeyEffect};

pub fn get_visible_terminal_lines<'a>(
    all_lines: &'a [String],
    view_capacity: usize,
    scroll_offset: usize,
) -> &'a [String] {
    let (start, end) = visible_lines_range(all_lines.len(), view_capacity, scroll_offset);
    &all_lines[start..end]
}

#[test]
fn test_terminal_scroll_offset_behavior() {
    let lines: Vec<String> = (0..100).map(|i| format!("Line {}", i)).collect();
    let capacity = 30;

    // 1. 最下部 (scroll_offset = 0): Line 70..Line 99 の 30 行
    let bottom_view = get_visible_terminal_lines(&lines, capacity, 0);
    assert_eq!(bottom_view.len(), 30);
    assert_eq!(bottom_view[0], "Line 70");
    assert_eq!(bottom_view[29], "Line 99");

    // 2. 10行上にスクロール (scroll_offset = 10): Line 60..Line 89
    let scrolled_view = get_visible_terminal_lines(&lines, capacity, 10);
    assert_eq!(scrolled_view.len(), 30);
    assert_eq!(scrolled_view[0], "Line 60");
    assert_eq!(scrolled_view[29], "Line 89");

    // 3. 最上部までスクロール (scroll_offset = 100): Line 0..Line 29
    let top_view = get_visible_terminal_lines(&lines, capacity, 100);
    assert_eq!(top_view.len(), 30);
    assert_eq!(top_view[0], "Line 0");
    assert_eq!(top_view[29], "Line 29");
}

#[test]
fn short_output_shows_everything() {
    assert_eq!(visible_lines_range(10, 35, 0), (0, 10));
    assert_eq!(visible_lines_range(10, 35, 7), (0, 10));
    assert_eq!(visible_lines_range(0, 35, 3), (0, 0));
}

#[test]
fn scroll_saturates() {
    let mut p = BottomPanel::new(true);
    p.scroll(5);
    assert_eq!(p.scroll_offset, 5);
    p.scroll(-7);
    assert_eq!(p.scroll_offset, 0);
    p.scroll_offset = usize::MAX - 1;
    p.scroll(3);
    assert_eq!(p.scroll_offset, usize::MAX);
}

#[test]
fn scroll_round_trip() {
    let mut p = BottomPanel::new(true);
    p.scroll_offset = 4;
    p.scroll(9);
    p.scroll(-9);
    assert_eq!(p.scroll_offset, 4);
}

#[test]
fn terminal_tabs() {
    let mut p = BottomPanel::new(true);
    assert_eq!(p.sessions.len(), 1);
    assert_eq!(p.sessions[0].id, "term-1");
    assert_eq!(p.sessions[0].title, "pwsh");
    assert_eq!(p.next_terminal_name(), "term-2");
    p.current_tab = BottomTab::Output;
    p.new_terminal(true);
    assert_eq!(p.sessions.len(), 2);
    assert_eq!(p.sessions[1].id, "term-2");
    assert_eq!(p.active_session, 1);
    assert_eq!(p.current_tab, BottomTab::Terminal);
    p.new_terminal(false);
    assert_eq!(p.sessions.len(), 2);
    assert!(p.close_terminal(1));
    assert_eq!(p.active_session, 0);
    assert!(!p.close_terminal(5));
    assert!(p.close_terminal(0));
    assert_eq!(p.sessions.len(), 0);
    assert_eq!(p.send_input("ls"), None);
}

#[test]
fn terminal_name_counts_past_nine() {
    let mut p = BottomPanel::new(false);
    for _ in 0..11 {
        p.new_terminal(true);
    }
    assert_eq!(p.sessions[10].id, "term-11");
}

#[test]
fn output_area_keys() {
    let mut p = BottomPanel::new(true);
    p.scroll_offset = 12;
    p.handle_output_key("l", false, false);
    p.handle_output_key("s", false, false);
    p.handle_output_key("space", false, false);
    p.handle_output_key("x", false, true);
    p.handle_output_key("F5", false, false);
    assert_eq!(p.input_buffer, "ls ");
    p.handle_output_key("backspace", false, false);
    assert_eq!(p.input_buffer, "ls");
    match p.handle_output_key("enter", false, false) {
        TerminalKeyEffect::Send(t) => assert_eq!(t, "ls\r\n"),
        _ => panic!("enter sends the line"),
    }
    assert_eq!(p.input_buffer, "");
    assert_eq!(p.scroll_offset, 0);
    p.handle_output_key("a", false, false);
    match p.handle_output_key("c", true, false) {
        TerminalKeyEffect::Send(t) => assert_eq!(t, "\u{3}"),
        _ => panic!("ctrl+c interrupts"),
    }
    assert_eq!(p.input_buffer, "");
    assert!(matches!(p.handle_output_key("l", true, false), TerminalKeyEffect::ClearOutput));
}

#[test]
fn panel_keys_keep_scroll() {
    let mut p = BottomPanel::new(true);
    p.scroll_offset = 3;
    p.handle_panel_key("g", false, false);
    match p.handle_panel_key("enter", false, false) {
        TerminalKeyEffect::Send(t) => assert_eq!(t, "g\r\n"),
        _ => panic!("enter sends the line"),
    }
    assert_eq!(p.scroll_offset, 3);
    assert!(matches!(p.handle_panel_key("l", true, false), TerminalKeyEffect::Nothing));
}

#[test]
fn problems_label() {
    let mut p = BottomPanel::new(false);
    assert_eq!(p.problems_tab_label(), "PROBLEMS");
    p.set_problems(vec![nucleus::bottom_panel::ProblemItem {
        file_path: "a.rs".to_string(),
        line: 1,
        column: 2,
        message: "x".to_string(),
        is_error: true,
    }]);
    assert_eq!(p.problems_tab_label(), "PROBLEMS (1)");
}

#[test]
fn input_line_display() {
    let mut p = BottomPanel::new(true);
    assert_eq!(p.input_line_display(), "Type command here and press Enter (or type directly in terminal above)...");
    p.handle_panel_key("l", false, false);
    assert_eq!(p.input_line_display(), "l_");
}

#[test]
fn input_goes_to_the_active_terminal() {
    let mut p = BottomPanel::new(false);
    p.new_terminal(true);
    p.new_terminal(true);
    assert_eq!(p.send_input("ls -la"), Some((1, "ls -la".to_string())));
}

#[test]
fn terminal_view_leaves_out_empty_lines() {
    let mut out: Vec<String> = (0..100).map(|i| if i % 10 == 0 { String::new() } else { format!("Line {}", i) }).collect();
    let shown = terminal_view_lines(&out, 0);
    assert_eq!(shown.first().unwrap(), "Line 65");
    assert_eq!(shown.last().unwrap(), "Line 99");
    assert_eq!(shown.len(), 35 - 3);
    let shown = terminal_view_lines(&out, 1000);
    assert_eq!(shown.first().unwrap(), "Line 1");
    assert_eq!(shown.last().unwrap(), "Line 34");
    out.truncate(5);
    assert_eq!(terminal_view_lines(&out, 3), vec!["Line 1", "Line 2", "Line 3", "Line 4"]);
    assert!(terminal_view_lines(&Vec::new(), 0).is_empty());
}
