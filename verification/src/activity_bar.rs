//! The activity bar down the left edge: its plugin entries, their labels and
//! the change-count badge of the source-control entry.
use vstd::prelude::*;

use crate::action::PluginAction;
use crate::text::{owned, chars_of, decimal, decimal_chars, same_text, slice_chars, string_of, to_uppercase, uppercase_of};

verus! {

/// The activity bar (its icons are drawn by the UI layer).
pub struct ActivityBar;

impl ActivityBar {
    pub fn new() -> (res: Self) {
        ActivityBar
    }

    /// A click on the explorer icon: opens the explorer panel.
    pub fn explorer_click() -> (res: PluginAction)
        ensures
            res matches PluginAction::OpenPanel { id } && id@ == "explorer"@,
    {
        PluginAction::OpenPanel { id: owned("explorer") }
    }

    /// A click on a plugin entry: announces its command as run, unless the
    /// entry has none (an empty command).
    pub fn item_click(command: &str) -> (res: Option<String>)
        ensures
            command@.len() == 0 ==> res is None,
            command@.len() > 0 ==> (res matches Some(c) && c@ == command@),
    {
        if chars_of(command).len() > 0 {
            Some(owned(command))
        } else {
            None
        }
    }

    /// Whether a plugin entry is the source-control one: its id is
    /// `git_sidebar` or its icon is `source_control` or `git`.
    pub fn is_git_item(id: &str, icon: &str) -> (res: bool)
        ensures
            res == (id@ == "git_sidebar"@ || icon@ == "source_control"@ || icon@ == "git"@),
    {
        same_text(id, "git_sidebar") || same_text(icon, "source_control") || same_text(icon, "git")
    }

    /// The text shown for a plugin entry without its own icon: the first two
    /// characters of its tooltip, in upper case.
    pub fn item_label(tooltip: &str) -> (res: String)
        ensures
            res@ == uppercase_of(tooltip@.take(if tooltip@.len() < 2 { tooltip@.len() as int } else { 2 })),
    {
        let t = chars_of(tooltip);
        let n: usize = if t.len() < 2 { t.len() } else { 2 };
        let head = slice_chars(&t, 0, n);
        assert(head@ =~= tooltip@.take(n as int));
        let s = string_of(&head);
        to_uppercase(s.as_str())
    }

    /// The badge on the source-control entry: the number of changed files,
    /// when there are any; other entries have none.
    pub fn git_badge(is_git: bool, change_count: usize) -> (res: Option<String>)
        ensures
            (is_git && change_count > 0) ==> (res matches Some(b) && b@ == decimal(change_count as nat)),
            !(is_git && change_count > 0) ==> res is None,
    {
        if is_git && change_count > 0 {
            let d = decimal_chars(change_count);
            Some(string_of(&d))
        } else {
            None
        }
    }
}

} // verus!
