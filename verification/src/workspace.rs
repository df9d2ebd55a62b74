//! The workspace: which panels are open, and how it carries out the actions
//! sent to it by routing them to the editor area, the sidebars, the bottom
//! panel and the command palette.
use vstd::prelude::*;

use crate::action::PluginAction;
use crate::bottom_panel::{BottomPanel, BottomTab};
use crate::editor_area::{closes_tab, first_with_path, first_with_title, no_tab_with_path, keybindings_address, opens_page, opens_tab, settings_address, EditorArea};
use crate::left_sidebar::LeftSidebar;
use crate::palette::{CommandPalette, PaletteMode};
use crate::text::{chars_of, concat_chars, same_text, string_of};

verus! {

/// Which panels around the editor are open.
#[derive(Clone, Copy, Debug, PartialEq, Eq, Structural)]
pub struct PanelVisibility {
    pub left_sidebar_open: bool,
    pub right_sidebar_open: bool,
    pub bottom_panel_open: bool,
}

impl PanelVisibility {
    /// The layout of a fresh workspace: the left sidebar open, the others closed.
    pub fn default_layout() -> (res: Self)
        ensures
            res.left_sidebar_open,
            !res.right_sidebar_open,
            !res.bottom_panel_open,
    {
        PanelVisibility { left_sidebar_open: true, right_sidebar_open: false, bottom_panel_open: false }
    }
}

/// What an action asks of the outside world once the workspace state is updated.
pub enum WorkspaceEffect {
    /// Nothing.
    Nothing,
    /// Save the layout to disk (after a short delay).
    ScheduleSave,
    /// Collect the files under `root` for the file search.
    CollectFiles { root: String },
    /// Save the editor of the tab at `tab_index`.
    SaveEditor { tab_index: usize },
}

/// What a file watcher reported.
#[derive(Clone, Copy, Debug, PartialEq, Eq, Structural)]
pub enum FileWatchKind {
    Created,
    Removed,
    Modified,
    Other,
}

/// The workspace.
pub struct Workspace {
    pub left_sidebar: LeftSidebar,
    pub bottom_panel: BottomPanel,
    pub editor_area: EditorArea,
    pub command_palette: CommandPalette,
    pub root_path: Option<String>,
    pub panels: PanelVisibility,
}

/// The left-sidebar panel ids an `OpenPanel` action can show.
pub open spec fn is_sidebar_panel(id: Seq<char>) -> bool {
    id == "git_sidebar"@ || id == "explorer"@ || id == "search"@
}

/// `b` differs from `a` at most in its editor area.
pub open spec fn only_editor_changes(a: Workspace, b: Workspace) -> bool {
    b == Workspace { editor_area: b.editor_area, ..a }
}

/// What carrying out `action` on `a` gives: the workspace `b` and the effect `e`.
pub open spec fn handles(a: Workspace, b: Workspace, action: PluginAction, e: WorkspaceEffect) -> bool {
    match action {
        PluginAction::OpenTab { path, title, content } => {
            &&& only_editor_changes(a, b)
            &&& opens_tab(a.editor_area, b.editor_area, path@, title@, content@)
            &&& e is Nothing
        },
        PluginAction::CloseTab { title } => {
            &&& only_editor_changes(a, b)
            &&& (forall|j: int| 0 <= j < a.editor_area.tabs@.len() ==> a.editor_area.tabs@[j].title@ != title@) ==> b == a
            &&& forall|i: int| first_with_title(a.editor_area.tabs@, title@, i) ==> closes_tab(a.editor_area, b.editor_area, i)
            &&& e is Nothing
        },
        PluginAction::OpenPanel { id } => if is_sidebar_panel(id@) {
            &&& b == Workspace {
                left_sidebar: LeftSidebar { active_panel: id, ..a.left_sidebar },
                panels: PanelVisibility { left_sidebar_open: true, ..a.panels },
                ..a
            }
            &&& e is ScheduleSave
        } else if id@ == "terminal"@ || id@ == "problems"@ {
            &&& b == Workspace {
                bottom_panel: BottomPanel {
                    current_tab: if id@ == "terminal"@ { BottomTab::Terminal } else { BottomTab::Problems },
                    ..a.bottom_panel
                },
                panels: PanelVisibility { bottom_panel_open: true, ..a.panels },
                ..a
            }
            &&& e is ScheduleSave
        } else if id@ == "settings"@ {
            &&& only_editor_changes(a, b)
            &&& opens_page(a.editor_area, b.editor_area, settings_address(), "Settings"@, true)
            &&& e is Nothing
        } else {
            &&& b == a
            &&& e is Nothing
        },
        PluginAction::ShowNotification { message } => {
            &&& b == Workspace { bottom_panel: BottomPanel { logs: b.bottom_panel.logs, ..a.bottom_panel }, ..a }
            &&& b.bottom_panel.logs@ == a.bottom_panel.logs@.push(b.bottom_panel.logs@.last())
            &&& b.bottom_panel.logs@.last()@ == "[Notification] "@ + message@
            &&& e is Nothing
        },
        PluginAction::TerminalClear => {
            &&& b == Workspace { bottom_panel: BottomPanel { logs: b.bottom_panel.logs, ..a.bottom_panel }, ..a }
            &&& b.bottom_panel.logs@.len() == 0
            &&& e is Nothing
        },
        PluginAction::SaveActiveTab => {
            &&& b == a
            &&& if a.editor_area.active_tab < a.editor_area.tabs@.len() && a.editor_area.tabs@[a.editor_area.active_tab as int].has_editor {
                e matches WorkspaceEffect::SaveEditor { tab_index } && tab_index == a.editor_area.active_tab
            } else {
                e is Nothing
            }
        },
        PluginAction::ToggleSidebar => {
            &&& b == Workspace { panels: PanelVisibility { left_sidebar_open: !a.panels.left_sidebar_open, ..a.panels }, ..a }
            &&& e is ScheduleSave
        },
        PluginAction::ToggleTerminal => {
            &&& b == Workspace { panels: PanelVisibility { bottom_panel_open: !a.panels.bottom_panel_open, ..a.panels }, ..a }
            &&& e is ScheduleSave
        },
        PluginAction::OpenFileFinder => {
            &&& b == Workspace {
                command_palette: CommandPalette {
                    is_open: true,
                    mode: PaletteMode::FileSearch,
                    query: b.command_palette.query,
                    selected_index: 0,
                    ..a.command_palette
                },
                ..a
            }
            &&& b.command_palette.query@.len() == 0
            &&& match a.root_path {
                Some(r) => e matches WorkspaceEffect::CollectFiles { root } && root == r,
                None => e is Nothing,
            }
        },
        PluginAction::OpenCommandPalette => {
            &&& b == Workspace {
                command_palette: CommandPalette {
                    is_open: true,
                    mode: PaletteMode::CommandPalette,
                    query: b.command_palette.query,
                    selected_index: 0,
                    ..a.command_palette
                },
                ..a
            }
            &&& b.command_palette.query@.len() == 0
            &&& e is Nothing
        },
        PluginAction::OpenKeybindings => {
            &&& only_editor_changes(a, b)
            &&& opens_page(a.editor_area, b.editor_area, keybindings_address(), "Keyboard Shortcuts"@, false)
            &&& e is Nothing
        },
        PluginAction::OpenSettings => {
            &&& only_editor_changes(a, b)
            &&& opens_page(a.editor_area, b.editor_area, settings_address(), "Settings"@, true)
            &&& e is Nothing
        },
        _ => {
            &&& b == a
            &&& e is Nothing
        },
    }
}

impl Workspace {
    /// The workspace's own invariant: that of its editor area.
    pub open spec fn wf(&self) -> bool {
        self.editor_area.wf()
    }

    /// A workspace on `root_path`, with the saved layout `panels`.
    /// `first_shell_started` says whether the first terminal's shell started.
    pub fn new(root_path: Option<String>, panels: PanelVisibility, first_shell_started: bool) -> (res: Self)
        ensures
            res.wf(),
            res.root_path == root_path,
            res.left_sidebar.root_path == root_path,
            res.panels == panels,
            res.editor_area.tabs@.len() == 0,
            !res.command_palette.is_open,
    {
        let sidebar_root = match &root_path {
            Some(r) => Some(r.clone()),
            None => None,
        };
        Workspace {
            left_sidebar: LeftSidebar::new(sidebar_root),
            bottom_panel: BottomPanel::new(first_shell_started),
            editor_area: EditorArea::new(),
            command_palette: CommandPalette::new(),
            root_path,
            panels,
        }
    }

    /// Carries out an action (see `handles`).
    pub fn handle_action(&mut self, action: PluginAction) -> (res: WorkspaceEffect)
        requires
            old(self).wf(),
        ensures
            final(self).wf(),
            handles(*old(self), *final(self), action, res),
    {
        match action {
            PluginAction::OpenTab { path, title, content } => {
                self.editor_area.open_tab(path, title, content);
                WorkspaceEffect::Nothing
            },
            PluginAction::CloseTab { title } => {
                if let Some(pos) = self.editor_area.position_of_title(title.as_str()) {
                    self.editor_area.close_tab(pos);
                    assert forall|i: int| first_with_title(old(self).editor_area.tabs@, title@, i) implies closes_tab(old(self).editor_area, self.editor_area, i) by {
                        if i < pos {
                            assert(old(self).editor_area.tabs@[i].title@ == title@);
                        }
                        if i > pos {
                            assert(old(self).editor_area.tabs@[pos as int].title@ == title@);
                        }
                    }
                }
                WorkspaceEffect::Nothing
            },
            PluginAction::OpenPanel { id } => {
                let is_git = same_text(id.as_str(), "git_sidebar");
                let is_explorer = same_text(id.as_str(), "explorer");
                let is_search = same_text(id.as_str(), "search");
                if is_git || is_explorer || is_search {
                    self.left_sidebar.set_active_panel(id);
                    self.panels.left_sidebar_open = true;
                    WorkspaceEffect::ScheduleSave
                } else if same_text(id.as_str(), "terminal") {
                    self.panels.bottom_panel_open = true;
                    self.bottom_panel.current_tab = BottomTab::Terminal;
                    WorkspaceEffect::ScheduleSave
                } else if same_text(id.as_str(), "problems") {
                    self.panels.bottom_panel_open = true;
                    self.bottom_panel.current_tab = BottomTab::Problems;
                    proof {
                        reveal_strlit("problems");
                        reveal_strlit("terminal");
                        assert("problems"@[0] != "terminal"@[0]);
                    }
                    WorkspaceEffect::ScheduleSave
                } else if same_text(id.as_str(), "settings") {
                    self.editor_area.open_settings();
                    WorkspaceEffect::Nothing
                } else {
                    WorkspaceEffect::Nothing
                }
            },
            PluginAction::ShowNotification { message } => {
                let a = chars_of("[Notification] ");
                let m = chars_of(message.as_str());
                let c = concat_chars(&a, &m);
                let line = string_of(&c);
                let ghost before = self.bottom_panel.logs@;
                self.bottom_panel.write_log(line);
                assert(self.bottom_panel.logs@ =~= before.push(self.bottom_panel.logs@.last()));
                WorkspaceEffect::Nothing
            },
            PluginAction::TerminalClear => {
                self.bottom_panel.clear_logs();
                WorkspaceEffect::Nothing
            },
            PluginAction::SaveActiveTab => {
                match self.editor_area.save_active_tab() {
                    Some(i) => WorkspaceEffect::SaveEditor { tab_index: i },
                    None => WorkspaceEffect::Nothing,
                }
            },
            PluginAction::ToggleSidebar => {
                self.panels.left_sidebar_open = !self.panels.left_sidebar_open;
                WorkspaceEffect::ScheduleSave
            },
            PluginAction::ToggleTerminal => {
                self.panels.bottom_panel_open = !self.panels.bottom_panel_open;
                WorkspaceEffect::ScheduleSave
            },
            PluginAction::OpenFileFinder => {
                self.command_palette.open_file_search(None);
                match &self.root_path {
                    Some(r) => WorkspaceEffect::CollectFiles { root: r.clone() },
                    None => WorkspaceEffect::Nothing,
                }
            },
            PluginAction::OpenCommandPalette => {
                self.command_palette.open_command_palette();
                WorkspaceEffect::Nothing
            },
            PluginAction::OpenKeybindings => {
                self.editor_area.open_keybindings();
                WorkspaceEffect::Nothing
            },
            PluginAction::OpenSettings => {
                self.editor_area.open_settings();
                WorkspaceEffect::Nothing
            },
            _ => WorkspaceEffect::Nothing,
        }
    }

    /// The keyboard toggle of the left sidebar.
    pub fn toggle_left_sidebar(&mut self) -> (res: WorkspaceEffect)
        ensures
            final(self).panels.left_sidebar_open == !old(self).panels.left_sidebar_open,
            final(self).panels.right_sidebar_open == old(self).panels.right_sidebar_open,
            final(self).panels.bottom_panel_open == old(self).panels.bottom_panel_open,
            *final(self) == (Workspace { panels: final(self).panels, ..*old(self) }),
            res is ScheduleSave,
    {
        self.panels.left_sidebar_open = !self.panels.left_sidebar_open;
        WorkspaceEffect::ScheduleSave
    }

    /// The keyboard toggle of the right sidebar.
    pub fn toggle_right_sidebar(&mut self) -> (res: WorkspaceEffect)
        ensures
            final(self).panels.right_sidebar_open == !old(self).panels.right_sidebar_open,
            final(self).panels.left_sidebar_open == old(self).panels.left_sidebar_open,
            final(self).panels.bottom_panel_open == old(self).panels.bottom_panel_open,
            *final(self) == (Workspace { panels: final(self).panels, ..*old(self) }),
            res is ScheduleSave,
    {
        self.panels.right_sidebar_open = !self.panels.right_sidebar_open;
        WorkspaceEffect::ScheduleSave
    }

    /// The keyboard toggle of the bottom panel.
    pub fn toggle_bottom_panel(&mut self) -> (res: WorkspaceEffect)
        ensures
            final(self).panels.bottom_panel_open == !old(self).panels.bottom_panel_open,
            final(self).panels.left_sidebar_open == old(self).panels.left_sidebar_open,
            final(self).panels.right_sidebar_open == old(self).panels.right_sidebar_open,
            *final(self) == (Workspace { panels: final(self).panels, ..*old(self) }),
            res is ScheduleSave,
    {
        self.panels.bottom_panel_open = !self.panels.bottom_panel_open;
        WorkspaceEffect::ScheduleSave
    }

    /// After polling the file watcher: the project folder to reload in the
    /// explorer, when some file was created, removed or modified.
    pub fn poll_file_watcher(&self, events: &Vec<FileWatchKind>) -> (res: Option<String>)
        ensures
            res is Some <==> (self.root_path is Some && exists|i: int|
                0 <= i < events@.len() && #[trigger] events@[i] != FileWatchKind::Other),
            res matches Some(r) ==> self.root_path == Some(r),
    {
        let mut modified = false;
        let mut i: usize = 0;
        while i < events.len()
            invariant
                i <= events@.len(),
                modified == exists|j: int| 0 <= j < i && #[trigger] events@[j] != FileWatchKind::Other,
            decreases events@.len() - i,
        {
            match events[i] {
                FileWatchKind::Created | FileWatchKind::Removed | FileWatchKind::Modified => {
                    modified = true;
                },
                FileWatchKind::Other => {},
            }
            i = i + 1;
        }
        if modified {
            match &self.root_path {
                Some(r) => Some(r.clone()),
                None => None,
            }
        } else {
            None
        }
    }
}

/// Toggling the sidebar (or the terminal) twice leaves the layout as it was.
pub proof fn law_toggle_twice(a: Workspace, b: Workspace, c: Workspace, e1: WorkspaceEffect, e2: WorkspaceEffect)
    requires
        handles(a, b, PluginAction::ToggleSidebar, e1),
        handles(b, c, PluginAction::ToggleSidebar, e2),
    ensures
        c.panels == a.panels,
{
}

/// Toggling the terminal twice leaves the layout as it was.
pub proof fn law_toggle_terminal_twice(a: Workspace, b: Workspace, c: Workspace, e1: WorkspaceEffect, e2: WorkspaceEffect)
    requires
        handles(a, b, PluginAction::ToggleTerminal, e1),
        handles(b, c, PluginAction::ToggleTerminal, e2),
    ensures
        c.panels == a.panels,
{
}

/// Every layout change is followed by a save of the layout.
pub proof fn law_layout_changes_are_saved(a: Workspace, b: Workspace, action: PluginAction, e: WorkspaceEffect)
    requires
        handles(a, b, action, e),
        b.panels != a.panels,
    ensures
        e is ScheduleSave,
{
}

/// Help > Settings opens the settings page: afterwards the active tab is the
/// one at `nucleus://settings`; when none was open it is a new tab titled
/// `Settings` that shows the settings page. Nothing but the editor area changes.
pub proof fn law_open_settings_shows_settings(a: Workspace, b: Workspace, e: WorkspaceEffect)
    requires
        handles(a, b, PluginAction::OpenSettings, e),
    ensures
        b.editor_area.active_tab < b.editor_area.tabs@.len(),
        b.editor_area.tabs@[b.editor_area.active_tab as int].path@ == "nucleus://settings"@,
        (forall|j: int| 0 <= j < a.editor_area.tabs@.len() ==> a.editor_area.tabs@[j].path@ != "nucleus://settings"@)
            ==> {
            let t = b.editor_area.tabs@[b.editor_area.active_tab as int];
            &&& t.title@ == "Settings"@
            &&& t.has_settings_view
            &&& !t.has_keybindings_view
            &&& b.editor_area.tabs@.len() == a.editor_area.tabs@.len() + 1
        },
        b.panels == a.panels,
        e is Nothing,
{
}

/// Help > Settings and opening the panel `settings` by id land on the same
/// tab list and the same active tab.
pub proof fn law_open_settings_same_as_panel(
    a: Workspace,
    b: Workspace,
    e: WorkspaceEffect,
    c: Workspace,
    f: WorkspaceEffect,
    id: String,
)
    requires
        id@ == "settings"@,
        handles(a, b, PluginAction::OpenSettings, e),
        handles(a, c, PluginAction::OpenPanel { id }, f),
    ensures
        b.editor_area.active_tab == c.editor_area.active_tab,
        b.editor_area.tabs@.len() == c.editor_area.tabs@.len(),
        forall|i: int|
            0 <= i < b.editor_area.tabs@.len() ==> (#[trigger] b.editor_area.tabs@[i]).path@
                == c.editor_area.tabs@[i].path@ && b.editor_area.tabs@[i].title@ == c.editor_area.tabs@[i].title@
                && b.editor_area.tabs@[i].has_settings_view == c.editor_area.tabs@[i].has_settings_view,
{
    reveal_strlit("settings");
    reveal_strlit("explorer");
    reveal_strlit("search");
    reveal_strlit("git_sidebar");
    reveal_strlit("terminal");
    reveal_strlit("problems");
    assert(!is_sidebar_panel(id@)) by {
        assert("settings"@[0] != "git_sidebar"@[0]);
        assert("settings"@[0] != "explorer"@[0]);
        assert("settings"@[2] != "search"@[2]);
    }
    assert(id@ != "terminal"@ && id@ != "problems"@) by {
        assert("settings"@[0] != "terminal"@[0]);
        assert("settings"@[0] != "problems"@[0]);
    }
    assert(opens_page(a.editor_area, c.editor_area, settings_address(), "Settings"@, true));
    let ta = a.editor_area.tabs@;
    let tb = b.editor_area.tabs@;
    let tc = c.editor_area.tabs@;
    if !no_tab_with_path(ta, settings_address()) {
        assert(first_with_path(ta, settings_address(), b.editor_area.active_tab as int));
        assert(first_with_path(ta, settings_address(), c.editor_area.active_tab as int));
        if b.editor_area.active_tab < c.editor_area.active_tab {
            assert(ta[b.editor_area.active_tab as int].path@ == settings_address());
        } else if b.editor_area.active_tab > c.editor_area.active_tab {
            assert(ta[c.editor_area.active_tab as int].path@ == settings_address());
        }
    } else {
        assert forall|i: int| 0 <= i < tb.len() implies (#[trigger] tb[i]).path@ == tc[i].path@ && tb[i].title@
            == tc[i].title@ && tb[i].has_settings_view == tc[i].has_settings_view by {
            if i < ta.len() {
                assert(tb[i] == ta[i]);
                assert(tc[i] == ta[i]);
            }
        }
    }
}
} // verus!
