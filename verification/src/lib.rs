//! The workspace logic of the Nucleus code editor: tabs, the command palette
//! and its fuzzy ranking, the keyboard shortcuts page, the bottom panel and
//! its terminal input, Git status in the file tree and the project search,
//! crash-recovery snapshots (their names and their JSON records), the
//! settings page, the title-bar menus, and how the workspace routes the actions sent
//! to it. Every function here carries a contract, and Verus proves each one
//! except the few trusted wrappers around `std` and `serde_json` calls, whose
//! doc comments say what they claim.
use vstd::prelude::*;

pub mod text;
pub mod paths;
pub mod fuzzy;
pub mod palette;
pub mod keybindings;
pub mod editor_area;
pub mod settings_view;
pub mod git_status;
pub mod left_sidebar;
pub mod bottom_panel;
pub mod action;
pub mod workspace;
pub mod title_bar;
pub mod activity_bar;
pub mod status_bar;
pub mod right_sidebar;
pub mod recovery;

verus! {

} // verus!
