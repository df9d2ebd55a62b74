//! The keyboard shortcuts page: the shortcut table and its search.
use vstd::prelude::*;

use crate::text::{chars_of, contains_exec, contains_text, lowercase_of, owned, to_lowercase};

verus! {

/// One row of the shortcut table.
pub struct KeybindingRow {
    pub command: String,
    pub key: String,
    pub when: String,
    pub source: String,
}

/// The keyboard shortcuts page.
pub struct KeybindingsView {
    pub query: String,
    pub keybindings: Vec<KeybindingRow>,
    pub selected_index: usize,
}

/// Whether a row answers a query: its command or its key contains the
/// query, all three lowercased.
pub open spec fn row_matches(row: KeybindingRow, query: Seq<char>) -> bool {
    contains_text(lowercase_of(row.command@), lowercase_of(query)) || contains_text(
        lowercase_of(row.key@),
        lowercase_of(query),
    )
}

/// The indices of the rows among the first `n` that answer the query, in order.
pub open spec fn matching_rows(rows: Seq<KeybindingRow>, query: Seq<char>, n: nat) -> Seq<int>
    decreases n,
{
    if n == 0 {
        Seq::empty()
    } else {
        let rest = matching_rows(rows, query, (n - 1) as nat);
        if row_matches(rows[n - 1], query) {
            rest.push(n - 1)
        } else {
            rest
        }
    }
}

/// A default row.
fn row(command: &str, key: &str, when: &str) -> (res: KeybindingRow)
    ensures
        res.command@ == command@,
        res.key@ == key@,
        res.when@ == when@,
        res.source@ == "Default"@,
{
    KeybindingRow { command: owned(command), key: owned(key), when: owned(when), source: owned("Default") }
}

/// The `i`-th default shortcut: its command, key and context (see
/// `KeybindingsView::default_keybindings`).
pub open spec fn default_binding(i: int) -> (Seq<char>, Seq<char>, Seq<char>) {
    if i == 0 {
        ("workbench.action.showCommands"@, "Ctrl+Shift+P"@, "Global"@)
    } else if i == 1 {
        ("workbench.action.quickOpen"@, "Ctrl+P"@, "Global"@)
    } else if i == 2 {
        ("workbench.action.files.save"@, "Ctrl+S"@, "Editor"@)
    } else if i == 3 {
        ("workbench.action.files.newUntitledFile"@, "Ctrl+N"@, "Global"@)
    } else if i == 4 {
        ("actions.find"@, "Ctrl+F"@, "Editor"@)
    } else if i == 5 {
        ("editor.action.startFindReplaceAction"@, "Ctrl+H"@, "Editor"@)
    } else if i == 6 {
        ("workbench.action.toggleSidebarVisibility"@, "Ctrl+B"@, "Global"@)
    } else if i == 7 {
        ("workbench.action.terminal.toggleTerminal"@, "Ctrl+`"@, "Global"@)
    } else if i == 8 {
        ("editor.action.quickFix"@, "Ctrl+."@, "Editor"@)
    } else if i == 9 {
        ("editor.action.formatDocument"@, "Shift+Alt+F"@, "Editor"@)
    } else if i == 10 {
        ("editor.action.rename"@, "F2"@, "Editor"@)
    } else if i == 11 {
        ("editor.action.revealDefinition"@, "F12"@, "Editor"@)
    } else if i == 12 {
        ("editor.action.goToReferences"@, "Shift+F12"@, "Editor"@)
    } else {
        ("workbench.action.debug.start"@, "F5"@, "Global"@)
    }
}

/// `rows` are the default shortcuts, in order, each from the source `Default`
/// (see `default_binding`).
pub open spec fn are_default_bindings(rows: Seq<KeybindingRow>) -> bool {
    &&& rows.len() == 14
    &&& forall|i: int|
        0 <= i < 14 ==> (#[trigger] rows[i]).source@ == "Default"@ && (rows[i].command@, rows[i].key@, rows[i].when@)
            == default_binding(i)
}

/// The rows that a list of row references points to.
pub open spec fn rows_of(s: Seq<&KeybindingRow>) -> Seq<KeybindingRow> {
    s.map_values(|r: &KeybindingRow| *r)
}

impl KeybindingsView {
    /// The editor's main shortcuts.
    pub fn default_keybindings() -> (res: Vec<KeybindingRow>)
        ensures
            are_default_bindings(res@),
    {
        let mut v: Vec<KeybindingRow> = Vec::new();
        v.push(row("workbench.action.showCommands", "Ctrl+Shift+P", "Global"));
        v.push(row("workbench.action.quickOpen", "Ctrl+P", "Global"));
        v.push(row("workbench.action.files.save", "Ctrl+S", "Editor"));
        v.push(row("workbench.action.files.newUntitledFile", "Ctrl+N", "Global"));
        v.push(row("actions.find", "Ctrl+F", "Editor"));
        v.push(row("editor.action.startFindReplaceAction", "Ctrl+H", "Editor"));
        v.push(row("workbench.action.toggleSidebarVisibility", "Ctrl+B", "Global"));
        v.push(row("workbench.action.terminal.toggleTerminal", "Ctrl+`", "Global"));
        v.push(row("editor.action.quickFix", "Ctrl+.", "Editor"));
        v.push(row("editor.action.formatDocument", "Shift+Alt+F", "Editor"));
        v.push(row("editor.action.rename", "F2", "Editor"));
        v.push(row("editor.action.revealDefinition", "F12", "Editor"));
        v.push(row("editor.action.goToReferences", "Shift+F12", "Editor"));
        v.push(row("workbench.action.debug.start", "F5", "Global"));
        assert forall|i: int| 0 <= i < 14 implies (#[trigger] v@[i]).source@ == "Default"@ && (
            v@[i].command@,
            v@[i].key@,
            v@[i].when@,
        ) == default_binding(i) by {}
        v
    }

    /// The page with an empty search and the default shortcuts.
    pub fn new() -> (res: Self)
        ensures
            res.query@.len() == 0,
            are_default_bindings(res.keybindings@),
            res.selected_index == 0,
    {
        KeybindingsView { query: String::new(), keybindings: Self::default_keybindings(), selected_index: 0 }
    }

    /// The rows to show: all rows for an empty search, else those whose
    /// command or key contains the search text, ignoring case, in table order.
    pub fn filtered_items(&self) -> (res: Vec<&KeybindingRow>)
        ensures
            self.query@.len() == 0 ==> rows_of(res@) == self.keybindings@,
            self.query@.len() > 0 ==> rows_of(res@) == matching_rows(
                self.keybindings@,
                self.query@,
                self.keybindings@.len(),
            ).map_values(|i: int| self.keybindings@[i]),
    {
        let qv = chars_of(self.query.as_str());
        let mut res: Vec<&KeybindingRow> = Vec::new();
        if qv.len() == 0 {
            let mut i: usize = 0;
            while i < self.keybindings.len()
                invariant
                    i <= self.keybindings@.len(),
                    rows_of(res@) == self.keybindings@.take(i as int),
                decreases self.keybindings@.len() - i,
            {
                let ghost prev = res@;
                let r = &self.keybindings[i];
                res.push(r);
                assert(res@ == prev.push(r));
                assert(*r == self.keybindings@[i as int]);
                assert(rows_of(res@) =~= rows_of(prev).push(self.keybindings@[i as int]));
                i = i + 1;
                assert(rows_of(res@) =~= self.keybindings@.take(i as int));
            }
            assert(self.keybindings@.take(i as int) =~= self.keybindings@);
            return res;
        }
        let ql = to_lowercase(self.query.as_str());
        let q = chars_of(ql.as_str());
        let mut i: usize = 0;
        while i < self.keybindings.len()
            invariant
                i <= self.keybindings@.len(),
                q@ == lowercase_of(self.query@),
                rows_of(res@) == matching_rows(self.keybindings@, self.query@, i as nat).map_values(
                    |j: int| self.keybindings@[j],
                ),
            decreases self.keybindings@.len() - i,
        {
            let c = to_lowercase(self.keybindings[i].command.as_str());
            let k = to_lowercase(self.keybindings[i].key.as_str());
            let cv = chars_of(c.as_str());
            let kv = chars_of(k.as_str());
            let ghost prev = res@;
            if contains_exec(&cv, &q) || contains_exec(&kv, &q) {
                let r = &self.keybindings[i];
                res.push(r);
                assert(*r == self.keybindings@[i as int]);
                assert(rows_of(res@) =~= rows_of(prev).push(self.keybindings@[i as int]));
                assert(rows_of(res@) =~= matching_rows(self.keybindings@, self.query@, (i + 1) as nat).map_values(
                    |j: int| self.keybindings@[j],
                ));
            } else {
                assert(rows_of(res@) =~= matching_rows(self.keybindings@, self.query@, (i + 1) as nat).map_values(
                    |j: int| self.keybindings@[j],
                ));
            }
            i = i + 1;
        }
        res
    }
}

/// The shortcut search ignores case: two search texts with the same lowercase
/// pick the same rows of any table, a row is picked exactly when the lowercase
/// search text occurs in its lowercase command or key, and case changes in a
/// row's command or key do not change whether it is picked.
pub proof fn law_search_ignores_case(rows: Seq<KeybindingRow>, q1: Seq<char>, q2: Seq<char>, n: nat)
    requires
        lowercase_of(q1) == lowercase_of(q2),
        n <= rows.len(),
    ensures
        matching_rows(rows, q1, n) == matching_rows(rows, q2, n),
        forall|i: int|
            0 <= i < rows.len() ==> (#[trigger] row_matches(rows[i], q1) <==> (contains_text(
                lowercase_of(rows[i].command@),
                lowercase_of(q2),
            ) || contains_text(lowercase_of(rows[i].key@), lowercase_of(q2)))),
    decreases n,
{
    if n > 0 {
        law_search_ignores_case(rows, q1, q2, (n - 1) as nat);
    }
}

/// Rows whose commands and keys agree once lowercased are picked alike by any search.
pub proof fn law_rows_alike_in_case_match_alike(r1: KeybindingRow, r2: KeybindingRow, q: Seq<char>)
    requires
        lowercase_of(r1.command@) == lowercase_of(r2.command@),
        lowercase_of(r1.key@) == lowercase_of(r2.key@),
    ensures
        row_matches(r1, q) == row_matches(r2, q),
{
}

} // verus!
