//! The actions that menus, plugins and key bindings ask the workspace to carry out.
use vstd::prelude::*;

verus! {

/// A request to the workspace.
pub enum PluginAction {
    OpenTab { path: String, title: String, content: String },
    CloseTab { title: String },
    OpenPanel { id: String },
    ClosePanel { id: String },
    ShowNotification { message: String },
    TerminalClear,
    SaveActiveTab,
    SaveAsActiveTab,
    CloseActiveTab,
    ToggleSidebar,
    ToggleTerminal,
    OpenFileFinder,
    OpenCommandPalette,
    OpenKeybindings,
    OpenSettings,
    OpenFilePicker,
    OpenFolderPicker,
    OpenDocumentation,
    EditorUndo,
    EditorRedo,
    EditorCut,
    EditorCopy,
    EditorPaste,
    EditorSelectAll,
    EditorFind,
    EditorReplace,
}

} // verus!
