//! The title bar: its menus, which one is open, and what each entry does.
use vstd::prelude::*;

use crate::action::PluginAction;
use crate::text::owned;

verus! {

/// A menu of the menu bar.
#[derive(Clone, Copy, Debug, PartialEq, Eq, Structural)]
pub enum MenuId {
    File,
    Edit,
    Selection,
    View,
    Run,
    Terminal,
    Help,
}

/// What choosing a menu entry does.
pub enum MenuAction {
    /// Sends the action to the workspace.
    Dispatch(PluginAction),
    /// Quits the application.
    Quit,
}

/// One line of a drop-down menu.
pub enum MenuEntry {
    Item { title: &'static str, shortcut: Option<&'static str>, action: MenuAction },
    Separator,
}

/// The title bar.
pub struct TitleBar {
    pub active_menu: Option<MenuId>,
}

/// What the `k`-th entry of `menu` is: its title, shortcut and action, or a separator.
pub open spec fn expected_entry(menu: MenuId, k: int, e: MenuEntry) -> bool {
    match menu {
        MenuId::File => {
            if k == 0 {
                e matches MenuEntry::Item { title, shortcut, action } && title@ == "New File"@ && (shortcut matches Some(s) && s@ == "Ctrl+N"@) && (action matches MenuAction::Dispatch(PluginAction::OpenTab { path, title: t, content }) && path@ == "Untitled"@ && t@ == "Untitled"@ && content@ == ""@)
            } else if k == 1 {
                e matches MenuEntry::Item { title, shortcut, action } && title@ == "Open File..."@ && (shortcut matches Some(s) && s@ == "Ctrl+O"@) && (action matches MenuAction::Dispatch(PluginAction::OpenFilePicker))
            } else if k == 2 {
                e matches MenuEntry::Item { title, shortcut, action } && title@ == "Open Folder..."@ && (shortcut matches Some(s) && s@ == "Ctrl+K Ctrl+O"@) && (action matches MenuAction::Dispatch(PluginAction::OpenFolderPicker))
            } else if k == 3 {
                e is Separator
            } else if k == 4 {
                e matches MenuEntry::Item { title, shortcut, action } && title@ == "Save"@ && (shortcut matches Some(s) && s@ == "Ctrl+S"@) && (action matches MenuAction::Dispatch(PluginAction::SaveActiveTab))
            } else if k == 5 {
                e matches MenuEntry::Item { title, shortcut, action } && title@ == "Save As..."@ && (shortcut matches Some(s) && s@ == "Ctrl+Shift+S"@) && (action matches MenuAction::Dispatch(PluginAction::SaveAsActiveTab))
            } else if k == 6 {
                e matches MenuEntry::Item { title, shortcut, action } && title@ == "Close Editor"@ && (shortcut matches Some(s) && s@ == "Ctrl+W"@) && (action matches MenuAction::Dispatch(PluginAction::CloseActiveTab))
            } else if k == 7 {
                e is Separator
            } else if k == 8 {
                e matches MenuEntry::Item { title, shortcut, action } && title@ == "Exit"@ && (shortcut matches Some(s) && s@ == "Alt+F4"@) && (action matches MenuAction::Quit)
            } else {
                false
            }
        },
        MenuId::Edit => {
            if k == 0 {
                e matches MenuEntry::Item { title, shortcut, action } && title@ == "Undo"@ && (shortcut matches Some(s) && s@ == "Ctrl+Z"@) && (action matches MenuAction::Dispatch(PluginAction::EditorUndo))
            } else if k == 1 {
                e matches MenuEntry::Item { title, shortcut, action } && title@ == "Redo"@ && (shortcut matches Some(s) && s@ == "Ctrl+Y"@) && (action matches MenuAction::Dispatch(PluginAction::EditorRedo))
            } else if k == 2 {
                e is Separator
            } else if k == 3 {
                e matches MenuEntry::Item { title, shortcut, action } && title@ == "Cut"@ && (shortcut matches Some(s) && s@ == "Ctrl+X"@) && (action matches MenuAction::Dispatch(PluginAction::EditorCut))
            } else if k == 4 {
                e matches MenuEntry::Item { title, shortcut, action } && title@ == "Copy"@ && (shortcut matches Some(s) && s@ == "Ctrl+C"@) && (action matches MenuAction::Dispatch(PluginAction::EditorCopy))
            } else if k == 5 {
                e matches MenuEntry::Item { title, shortcut, action } && title@ == "Paste"@ && (shortcut matches Some(s) && s@ == "Ctrl+V"@) && (action matches MenuAction::Dispatch(PluginAction::EditorPaste))
            } else if k == 6 {
                e is Separator
            } else if k == 7 {
                e matches MenuEntry::Item { title, shortcut, action } && title@ == "Find"@ && (shortcut matches Some(s) && s@ == "Ctrl+F"@) && (action matches MenuAction::Dispatch(PluginAction::EditorFind))
            } else if k == 8 {
                e matches MenuEntry::Item { title, shortcut, action } && title@ == "Replace"@ && (shortcut matches Some(s) && s@ == "Ctrl+H"@) && (action matches MenuAction::Dispatch(PluginAction::EditorReplace))
            } else if k == 9 {
                e matches MenuEntry::Item { title, shortcut, action } && title@ == "Find in Files"@ && (shortcut matches Some(s) && s@ == "Ctrl+Shift+F"@) && (action matches MenuAction::Dispatch(PluginAction::OpenPanel { id }) && id@ == "search"@)
            } else {
                false
            }
        },
        MenuId::Selection => {
            if k == 0 {
                e matches MenuEntry::Item { title, shortcut, action } && title@ == "Select All"@ && (shortcut matches Some(s) && s@ == "Ctrl+A"@) && (action matches MenuAction::Dispatch(PluginAction::EditorSelectAll))
            } else if k == 1 {
                e matches MenuEntry::Item { title, shortcut, action } && title@ == "Expand Selection"@ && (shortcut matches Some(s) && s@ == "Shift+Alt+Right"@) && (action matches MenuAction::Dispatch(PluginAction::ShowNotification { message }) && message@ == "Selection Expanded"@)
            } else if k == 2 {
                e matches MenuEntry::Item { title, shortcut, action } && title@ == "Shrink Selection"@ && (shortcut matches Some(s) && s@ == "Shift+Alt+Left"@) && (action matches MenuAction::Dispatch(PluginAction::ShowNotification { message }) && message@ == "Selection Shrunk"@)
            } else {
                false
            }
        },
        MenuId::View => {
            if k == 0 {
                e matches MenuEntry::Item { title, shortcut, action } && title@ == "Command Palette..."@ && (shortcut matches Some(s) && s@ == "Ctrl+Shift+P"@) && (action matches MenuAction::Dispatch(PluginAction::OpenCommandPalette))
            } else if k == 1 {
                e matches MenuEntry::Item { title, shortcut, action } && title@ == "Explorer"@ && (shortcut matches Some(s) && s@ == "Ctrl+Shift+E"@) && (action matches MenuAction::Dispatch(PluginAction::OpenPanel { id }) && id@ == "explorer"@)
            } else if k == 2 {
                e matches MenuEntry::Item { title, shortcut, action } && title@ == "Search"@ && (shortcut matches Some(s) && s@ == "Ctrl+Shift+F"@) && (action matches MenuAction::Dispatch(PluginAction::OpenPanel { id }) && id@ == "search"@)
            } else if k == 3 {
                e matches MenuEntry::Item { title, shortcut, action } && title@ == "Source Control"@ && (shortcut matches Some(s) && s@ == "Ctrl+Shift+G"@) && (action matches MenuAction::Dispatch(PluginAction::OpenPanel { id }) && id@ == "git_sidebar"@)
            } else if k == 4 {
                e is Separator
            } else if k == 5 {
                e matches MenuEntry::Item { title, shortcut, action } && title@ == "Toggle Primary Sidebar"@ && (shortcut matches Some(s) && s@ == "Ctrl+B"@) && (action matches MenuAction::Dispatch(PluginAction::ToggleSidebar))
            } else if k == 6 {
                e matches MenuEntry::Item { title, shortcut, action } && title@ == "Toggle Terminal"@ && (shortcut matches Some(s) && s@ == "Ctrl+`"@) && (action matches MenuAction::Dispatch(PluginAction::ToggleTerminal))
            } else {
                false
            }
        },
        MenuId::Run => {
            if k == 0 {
                e matches MenuEntry::Item { title, shortcut, action } && title@ == "Start Debugging"@ && (shortcut matches Some(s) && s@ == "F5"@) && (action matches MenuAction::Dispatch(PluginAction::ShowNotification { message }) && message@ == "Starting Debug Session (DAP)..."@)
            } else if k == 1 {
                e matches MenuEntry::Item { title, shortcut, action } && title@ == "Run Without Debugging"@ && (shortcut matches Some(s) && s@ == "Ctrl+F5"@) && (action matches MenuAction::Dispatch(PluginAction::ShowNotification { message }) && message@ == "Running application without debugging..."@)
            } else if k == 2 {
                e matches MenuEntry::Item { title, shortcut, action } && title@ == "Toggle Breakpoint"@ && (shortcut matches Some(s) && s@ == "F9"@) && (action matches MenuAction::Dispatch(PluginAction::ShowNotification { message }) && message@ == "Toggled Breakpoint"@)
            } else {
                false
            }
        },
        MenuId::Terminal => {
            if k == 0 {
                e matches MenuEntry::Item { title, shortcut, action } && title@ == "New Terminal"@ && (shortcut matches Some(s) && s@ == "Ctrl+Shift+`"@) && (action matches MenuAction::Dispatch(PluginAction::OpenPanel { id }) && id@ == "terminal"@)
            } else if k == 1 {
                e matches MenuEntry::Item { title, shortcut, action } && title@ == "Clear Terminal"@ && shortcut is None && (action matches MenuAction::Dispatch(PluginAction::TerminalClear))
            } else {
                false
            }
        },
        MenuId::Help => {
            if k == 0 {
                e matches MenuEntry::Item { title, shortcut, action } && title@ == "Settings"@ && (shortcut matches Some(s) && s@ == "Ctrl+,"@) && (action matches MenuAction::Dispatch(PluginAction::OpenSettings))
            } else if k == 1 {
                e matches MenuEntry::Item { title, shortcut, action } && title@ == "Keyboard Shortcuts"@ && (shortcut matches Some(s) && s@ == "Ctrl+K Ctrl+S"@) && (action matches MenuAction::Dispatch(PluginAction::OpenKeybindings))
            } else if k == 2 {
                e is Separator
            } else if k == 3 {
                e matches MenuEntry::Item { title, shortcut, action } && title@ == "Documentation"@ && shortcut is None && (action matches MenuAction::Dispatch(PluginAction::OpenDocumentation))
            } else if k == 4 {
                e matches MenuEntry::Item { title, shortcut, action } && title@ == "About Nucleus"@ && shortcut is None && (action matches MenuAction::Dispatch(PluginAction::ShowNotification { message }) && message@ == "Nucleus IDE v0.1.0 — High-performance Native Editor"@)
            } else {
                false
            }
        },
    }
}

/// How many entries `menu` has.
pub open spec fn menu_len(menu: MenuId) -> int {
    match menu {
        MenuId::File => 9,
        MenuId::Edit => 10,
        MenuId::Selection => 3,
        MenuId::View => 7,
        MenuId::Run => 3,
        MenuId::Terminal => 2,
        MenuId::Help => 5,
    }
}

impl MenuId {
    /// The menu's title on the menu bar.
    pub fn title(self) -> (res: &'static str)
        ensures
            self == MenuId::File ==> res@ == "File"@,
            self == MenuId::Edit ==> res@ == "Edit"@,
            self == MenuId::Selection ==> res@ == "Selection"@,
            self == MenuId::View ==> res@ == "View"@,
            self == MenuId::Run ==> res@ == "Run"@,
            self == MenuId::Terminal ==> res@ == "Terminal"@,
            self == MenuId::Help ==> res@ == "Help"@,
    {
        match self {
            MenuId::File => "File",
            MenuId::Edit => "Edit",
            MenuId::Selection => "Selection",
            MenuId::View => "View",
            MenuId::Run => "Run",
            MenuId::Terminal => "Terminal",
            MenuId::Help => "Help",
        }
    }
}

impl TitleBar {
    /// A title bar with no menu open.
    pub fn new() -> (res: Self)
        ensures
            res.active_menu is None,
    {
        TitleBar { active_menu: None }
    }

    /// The menus on the menu bar, left to right.
    pub fn menu_bar() -> (res: Vec<MenuId>)
        ensures
            res@ == seq![MenuId::File, MenuId::Edit, MenuId::Selection, MenuId::View, MenuId::Run, MenuId::Terminal, MenuId::Help],
    {
        let mut v: Vec<MenuId> = Vec::new();
        v.push(MenuId::File);
        v.push(MenuId::Edit);
        v.push(MenuId::Selection);
        v.push(MenuId::View);
        v.push(MenuId::Run);
        v.push(MenuId::Terminal);
        v.push(MenuId::Help);
        v
    }

    /// A click on a menu title: closes it when it is the open one, opens it otherwise.
    pub fn toggle_menu(&mut self, menu: MenuId)
        ensures
            final(self).active_menu == toggled(old(self).active_menu, menu),
    {
        let open = match self.active_menu {
            Some(m) => m == menu,
            None => false,
        };
        if open {
            self.active_menu = None;
        } else {
            self.active_menu = Some(menu);
        }
    }

    /// A click on a menu entry closes the menu.
    pub fn close_menu(&mut self)
        ensures
            final(self).active_menu is None,
    {
        self.active_menu = None;
    }

    /// The action of the search box in the middle of the title bar.
    pub fn search_box_action() -> (res: PluginAction)
        ensures
            res is OpenCommandPalette,
    {
        PluginAction::OpenCommandPalette
    }

    /// The entries of a drop-down menu, in order (see `expected_entry`).
    pub fn menu_entries(menu: MenuId) -> (res: Vec<MenuEntry>)
        ensures
            res@.len() == menu_len(menu),
            forall|k: int| 0 <= k < res@.len() ==> expected_entry(menu, k, #[trigger] res@[k]),
    {
        let mut v: Vec<MenuEntry> = Vec::new();
        match menu {
            MenuId::File => {
                v.push(MenuEntry::Item { title: "New File", shortcut: Some("Ctrl+N"), action: MenuAction::Dispatch(PluginAction::OpenTab { path: owned("Untitled"), title: owned("Untitled"), content: owned("") }) });
                v.push(MenuEntry::Item { title: "Open File...", shortcut: Some("Ctrl+O"), action: MenuAction::Dispatch(PluginAction::OpenFilePicker) });
                v.push(MenuEntry::Item { title: "Open Folder...", shortcut: Some("Ctrl+K Ctrl+O"), action: MenuAction::Dispatch(PluginAction::OpenFolderPicker) });
                v.push(MenuEntry::Separator);
                v.push(MenuEntry::Item { title: "Save", shortcut: Some("Ctrl+S"), action: MenuAction::Dispatch(PluginAction::SaveActiveTab) });
                v.push(MenuEntry::Item { title: "Save As...", shortcut: Some("Ctrl+Shift+S"), action: MenuAction::Dispatch(PluginAction::SaveAsActiveTab) });
                v.push(MenuEntry::Item { title: "Close Editor", shortcut: Some("Ctrl+W"), action: MenuAction::Dispatch(PluginAction::CloseActiveTab) });
                v.push(MenuEntry::Separator);
                v.push(MenuEntry::Item { title: "Exit", shortcut: Some("Alt+F4"), action: MenuAction::Quit });
            },
            MenuId::Edit => {
                v.push(MenuEntry::Item { title: "Undo", shortcut: Some("Ctrl+Z"), action: MenuAction::Dispatch(PluginAction::EditorUndo) });
                v.push(MenuEntry::Item { title: "Redo", shortcut: Some("Ctrl+Y"), action: MenuAction::Dispatch(PluginAction::EditorRedo) });
                v.push(MenuEntry::Separator);
                v.push(MenuEntry::Item { title: "Cut", shortcut: Some("Ctrl+X"), action: MenuAction::Dispatch(PluginAction::EditorCut) });
                v.push(MenuEntry::Item { title: "Copy", shortcut: Some("Ctrl+C"), action: MenuAction::Dispatch(PluginAction::EditorCopy) });
                v.push(MenuEntry::Item { title: "Paste", shortcut: Some("Ctrl+V"), action: MenuAction::Dispatch(PluginAction::EditorPaste) });
                v.push(MenuEntry::Separator);
                v.push(MenuEntry::Item { title: "Find", shortcut: Some("Ctrl+F"), action: MenuAction::Dispatch(PluginAction::EditorFind) });
                v.push(MenuEntry::Item { title: "Replace", shortcut: Some("Ctrl+H"), action: MenuAction::Dispatch(PluginAction::EditorReplace) });
                v.push(MenuEntry::Item { title: "Find in Files", shortcut: Some("Ctrl+Shift+F"), action: MenuAction::Dispatch(PluginAction::OpenPanel { id: owned("search") }) });
            },
            MenuId::Selection => {
                v.push(MenuEntry::Item { title: "Select All", shortcut: Some("Ctrl+A"), action: MenuAction::Dispatch(PluginAction::EditorSelectAll) });
                v.push(MenuEntry::Item { title: "Expand Selection", shortcut: Some("Shift+Alt+Right"), action: MenuAction::Dispatch(PluginAction::ShowNotification { message: owned("Selection Expanded") }) });
                v.push(MenuEntry::Item { title: "Shrink Selection", shortcut: Some("Shift+Alt+Left"), action: MenuAction::Dispatch(PluginAction::ShowNotification { message: owned("Selection Shrunk") }) });
            },
            MenuId::View => {
                v.push(MenuEntry::Item { title: "Command Palette...", shortcut: Some("Ctrl+Shift+P"), action: MenuAction::Dispatch(PluginAction::OpenCommandPalette) });
                v.push(MenuEntry::Item { title: "Explorer", shortcut: Some("Ctrl+Shift+E"), action: MenuAction::Dispatch(PluginAction::OpenPanel { id: owned("explorer") }) });
                v.push(MenuEntry::Item { title: "Search", shortcut: Some("Ctrl+Shift+F"), action: MenuAction::Dispatch(PluginAction::OpenPanel { id: owned("search") }) });
                v.push(MenuEntry::Item { title: "Source Control", shortcut: Some("Ctrl+Shift+G"), action: MenuAction::Dispatch(PluginAction::OpenPanel { id: owned("git_sidebar") }) });
                v.push(MenuEntry::Separator);
                v.push(MenuEntry::Item { title: "Toggle Primary Sidebar", shortcut: Some("Ctrl+B"), action: MenuAction::Dispatch(PluginAction::ToggleSidebar) });
                v.push(MenuEntry::Item { title: "Toggle Terminal", shortcut: Some("Ctrl+`"), action: MenuAction::Dispatch(PluginAction::ToggleTerminal) });
            },
            MenuId::Run => {
                v.push(MenuEntry::Item { title: "Start Debugging", shortcut: Some("F5"), action: MenuAction::Dispatch(PluginAction::ShowNotification { message: owned("Starting Debug Session (DAP)...") }) });
                v.push(MenuEntry::Item { title: "Run Without Debugging", shortcut: Some("Ctrl+F5"), action: MenuAction::Dispatch(PluginAction::ShowNotification { message: owned("Running application without debugging...") }) });
                v.push(MenuEntry::Item { title: "Toggle Breakpoint", shortcut: Some("F9"), action: MenuAction::Dispatch(PluginAction::ShowNotification { message: owned("Toggled Breakpoint") }) });
            },
            MenuId::Terminal => {
                v.push(MenuEntry::Item { title: "New Terminal", shortcut: Some("Ctrl+Shift+`"), action: MenuAction::Dispatch(PluginAction::OpenPanel { id: owned("terminal") }) });
                v.push(MenuEntry::Item { title: "Clear Terminal", shortcut: None, action: MenuAction::Dispatch(PluginAction::TerminalClear) });
            },
            MenuId::Help => {
                v.push(MenuEntry::Item { title: "Settings", shortcut: Some("Ctrl+,"), action: MenuAction::Dispatch(PluginAction::OpenSettings) });
                v.push(MenuEntry::Item { title: "Keyboard Shortcuts", shortcut: Some("Ctrl+K Ctrl+S"), action: MenuAction::Dispatch(PluginAction::OpenKeybindings) });
                v.push(MenuEntry::Separator);
                v.push(MenuEntry::Item { title: "Documentation", shortcut: None, action: MenuAction::Dispatch(PluginAction::OpenDocumentation) });
                v.push(MenuEntry::Item { title: "About Nucleus", shortcut: None, action: MenuAction::Dispatch(PluginAction::ShowNotification { message: owned("Nucleus IDE v0.1.0 — High-performance Native Editor") }) });
            },
        }
        v
    }
}

/// The open menu after a click on the title of `menu`, when `active` was open:
/// none when it was that menu, else that menu.
pub open spec fn toggled(active: Option<MenuId>, menu: MenuId) -> Option<MenuId> {
    if active == Some(menu) {
        None
    } else {
        Some(menu)
    }
}

/// Clicking the same menu title twice leaves the menus as they were, when no
/// menu or that one was open (with another menu open, the second click closes it).
pub proof fn law_menu_toggle_twice(active: Option<MenuId>, menu: MenuId)
    requires
        active is None || active == Some(menu),
    ensures
        toggled(toggled(active, menu), menu) == active,
{
}

} // verus!
