//! The editor area: its tabs, which one is active, the contents waiting for
//! an editor to be created, and the tab context menu, rename and quick-fix state.
use vstd::prelude::*;

use crate::paths::{after_last_slash, extension_of, has_extension, last_dot, path_file_name, plain_name, portable_path};
use crate::text::{chars_equal, chars_of, ends_with, has_suffix, owned};

verus! {

/// One open tab. The views behind it (text editor, settings page, keyboard
/// shortcuts page) live in the UI layer; the tab records which of them exist.
pub struct EditorTab {
    /// The file path (or a `nucleus://` address for built-in pages).
    pub path: String,
    /// The title shown on the tab.
    pub title: String,
    /// A text editor has been created for the tab.
    pub has_editor: bool,
    /// The tab shows the settings page.
    pub has_settings_view: bool,
    /// The tab shows the keyboard shortcuts page.
    pub has_keybindings_view: bool,
}

/// The tab whose context menu is open (its screen position is kept by the UI layer).
pub struct TabContextMenu {
    pub tab_index: usize,
}

/// A symbol rename in progress.
pub struct RenameState {
    pub current_name: String,
    pub new_name: String,
}

/// One quick-fix action offered to the user.
pub struct QuickFixItem {
    pub title: String,
    pub action_id: String,
}

/// The quick-fix popup (its screen position is kept by the UI layer).
pub struct QuickFixState {
    pub is_open: bool,
    pub items: Vec<QuickFixItem>,
}

/// Text waiting for an editor to be created for the tab with this path.
pub struct PendingContent {
    pub path: String,
    pub content: String,
}

/// An editor the UI layer is to create, for the tab at `tab_index`.
pub struct EditorToCreate {
    pub tab_index: usize,
    pub path: String,
    pub content: String,
}

/// What the editor area shows below its tab bar.
#[derive(Clone, Copy, Debug, PartialEq, Eq, Structural)]
pub enum AreaContent {
    /// No tab is open: the welcome screen.
    Welcome,
    /// The settings page of the active tab.
    Settings,
    /// The keyboard shortcuts page of the active tab.
    Keybindings,
    /// The text editor of the active tab.
    Editor,
    /// The active tab's editor is not created yet: a loading note.
    Loading,
    /// No tab is active: nothing.
    Blank,
}

/// The editor area.
pub struct EditorArea {
    pub tabs: Vec<EditorTab>,
    pub pending_contents: Vec<PendingContent>,
    pub active_tab: usize,
    pub pending_close_tab: Option<usize>,
    pub context_menu: Option<TabContextMenu>,
    pub rename_state: Option<RenameState>,
    pub quick_fix_state: QuickFixState,
}

/// The address of the settings page tab.
pub open spec fn settings_address() -> Seq<char> {
    "nucleus://settings"@
}

/// The address of the keyboard shortcuts page tab.
pub open spec fn keybindings_address() -> Seq<char> {
    "nucleus://keybindings"@
}

/// `i` is the first tab whose path is `p`.
pub open spec fn first_with_path(tabs: Seq<EditorTab>, p: Seq<char>, i: int) -> bool {
    0 <= i < tabs.len() && tabs[i].path@ == p && forall|j: int| 0 <= j < i ==> tabs[j].path@ != p
}

/// No tab has path `p`.
pub open spec fn no_tab_with_path(tabs: Seq<EditorTab>, p: Seq<char>) -> bool {
    forall|j: int| 0 <= j < tabs.len() ==> tabs[j].path@ != p
}

/// `i` is the first tab whose title is `t`.
pub open spec fn first_with_title(tabs: Seq<EditorTab>, t: Seq<char>, i: int) -> bool {
    0 <= i < tabs.len() && tabs[i].title@ == t && forall|j: int| 0 <= j < i ==> tabs[j].title@ != t
}

/// No two tabs share a path.
pub open spec fn distinct_paths(tabs: Seq<EditorTab>) -> bool {
    forall|i: int, j: int| 0 <= i < j < tabs.len() ==> tabs[i].path@ != tabs[j].path@
}

/// `i` is the first pending entry for path `p`.
pub open spec fn first_pending(s: Seq<PendingContent>, p: Seq<char>, i: int) -> bool {
    0 <= i < s.len() && s[i].path@ == p && forall|j: int| 0 <= j < i ==> s[j].path@ != p
}

/// No pending entry for path `p`.
pub open spec fn no_pending(s: Seq<PendingContent>, p: Seq<char>) -> bool {
    forall|j: int| 0 <= j < s.len() ==> s[j].path@ != p
}

/// The pending contents after `content` is recorded for `p`: it replaces the
/// content of the entry for `p`, or is added at the end when there is none.
pub open spec fn pending_after_insert(
    old_s: Seq<PendingContent>,
    new_s: Seq<PendingContent>,
    p: Seq<char>,
    c: Seq<char>,
) -> bool {
    if no_pending(old_s, p) {
        new_s.len() == old_s.len() + 1 && new_s.take(old_s.len() as int) == old_s
            && new_s.last().path@ == p && new_s.last().content@ == c
    } else {
        exists|i: int|
            #![trigger old_s[i]]
            first_pending(old_s, p, i) && new_s.len() == old_s.len() && (forall|j: int|
                0 <= j < old_s.len() && j != i ==> new_s[j] == old_s[j]) && new_s[i].path@ == p
                && new_s[i].content@ == c
    }
}

/// The language name used for highlighting a file of this name: `.lock`
/// files and `Pipfile` are TOML; otherwise the extension decides.
pub open spec fn language_of_file_name(name: Seq<char>) -> Seq<char> {
    if ends_with(name, ".lock"@) || name == "Cargo.lock"@ || name == "Pipfile"@ || name
        == "Gopkg.lock"@ {
        "toml"@
    } else {
        match extension_of(name) {
            Some(e) => if e == "rs"@ {
                "rust"@
            } else if e == "toml"@ {
                "toml"@
            } else if e == "json"@ {
                "json"@
            } else if e == "js"@ {
                "javascript"@
            } else if e == "ts"@ {
                "typescript"@
            } else if e == "md"@ {
                "markdown"@
            } else if e == "yaml"@ || e == "yml"@ {
                "yaml"@
            } else {
                "text"@
            },
            None => "text"@,
        }
    }
}

/// The tab at `i` holds no dirty editor.
pub open spec fn tab_is_clean(tabs: Seq<EditorTab>, dirty: Seq<bool>, i: int) -> bool {
    !(tabs[i].has_editor && dirty[i])
}

/// The tabs, and their dirty flags, that survive a "close saved": those with a dirty editor.
pub open spec fn kept_dirty(tabs: Seq<EditorTab>, dirty: Seq<bool>, n: nat) -> Seq<EditorTab>
    decreases n,
{
    if n == 0 {
        Seq::empty()
    } else {
        let rest = kept_dirty(tabs, dirty, (n - 1) as nat);
        if tab_is_clean(tabs, dirty, n - 1) {
            rest
        } else {
            rest.push(tabs[n - 1])
        }
    }
}

/// The active index once the tab list has shrunk to `len` tabs: unchanged
/// while still valid, else the last tab (0 when none is left).
pub open spec fn clamp_active(active: int, len: int) -> int {
    if len <= 0 {
        0
    } else if active >= len {
        len - 1
    } else {
        active
    }
}

/// What opening a tab for `p` (title `t`, text `c`) does to the editor area
/// `a`, giving `b`: an already open tab for `p` becomes active and nothing
/// else changes; otherwise a new tab without an editor is added at the end
/// and made active, and its text is recorded as pending.
pub open spec fn opens_tab(a: EditorArea, b: EditorArea, p: Seq<char>, t: Seq<char>, c: Seq<char>) -> bool {
    &&& b.context_menu == a.context_menu
    &&& b.pending_close_tab == a.pending_close_tab
    &&& b.rename_state == a.rename_state
    &&& b.quick_fix_state == a.quick_fix_state
    &&& b.tabs@.len() > 0
    &&& b.tabs@[b.active_tab as int].path@ == p
    &&& if no_tab_with_path(a.tabs@, p) {
        &&& b.tabs@ == a.tabs@.push(b.tabs@.last())
        &&& b.active_tab == a.tabs@.len()
        &&& b.tabs@.last().path@ == p
        &&& b.tabs@.last().title@ == t
        &&& !b.tabs@.last().has_editor
        &&& !b.tabs@.last().has_settings_view
        &&& !b.tabs@.last().has_keybindings_view
        &&& pending_after_insert(a.pending_contents@, b.pending_contents@, p, c)
    } else {
        &&& b.tabs == a.tabs
        &&& first_with_path(a.tabs@, p, b.active_tab as int)
        &&& b.pending_contents == a.pending_contents
    }
}

/// What opening the built-in page at `address` (titled `t`; the settings
/// page when `settings`, else the keyboard shortcuts page) does to `a`,
/// giving `b`: an open tab for it becomes active, or a new tab for it is
/// added at the end and made active. Nothing else changes.
pub open spec fn opens_page(a: EditorArea, b: EditorArea, address: Seq<char>, t: Seq<char>, settings: bool) -> bool {
    &&& b.context_menu == a.context_menu
    &&& b.pending_close_tab == a.pending_close_tab
    &&& b.rename_state == a.rename_state
    &&& b.quick_fix_state == a.quick_fix_state
    &&& b.pending_contents == a.pending_contents
    &&& b.tabs@.len() > 0
    &&& b.tabs@[b.active_tab as int].path@ == address
    &&& if no_tab_with_path(a.tabs@, address) {
        &&& b.tabs@ == a.tabs@.push(b.tabs@.last())
        &&& b.active_tab == a.tabs@.len()
        &&& b.tabs@.last().title@ == t
        &&& !b.tabs@.last().has_editor
        &&& b.tabs@.last().has_settings_view == settings
        &&& b.tabs@.last().has_keybindings_view == !settings
    } else {
        &&& b.tabs == a.tabs
        &&& first_with_path(a.tabs@, address, b.active_tab as int)
    }
}

/// What closing the tab at `idx` does to `a`, giving `b`: the tab leaves the
/// list and the active index is clamped to the shorter list; an index past
/// the end changes no tab. The context menu closes either way.
pub open spec fn closes_tab(a: EditorArea, b: EditorArea, idx: int) -> bool {
    &&& b.context_menu is None
    &&& b.rename_state == a.rename_state
    &&& b.quick_fix_state == a.quick_fix_state
    &&& b.pending_contents == a.pending_contents
    &&& b.pending_close_tab == a.pending_close_tab
    &&& if 0 <= idx < a.tabs@.len() {
        &&& b.tabs@ == a.tabs@.remove(idx)
        &&& b.active_tab == clamp_active(a.active_tab as int, a.tabs@.len() - 1)
    } else {
        &&& b.tabs == a.tabs
        &&& b.active_tab == a.active_tab
    }
}

/// The tabs a "close saved" keeps come from the list in their original order.
proof fn lemma_kept_in_order(tabs: Seq<EditorTab>, dirty: Seq<bool>, n: nat) -> (idx: Seq<int>)
    requires
        n <= tabs.len(),
        dirty.len() == tabs.len(),
    ensures
        idx.len() == kept_dirty(tabs, dirty, n).len(),
        forall|k: int| 0 <= k < idx.len() ==> 0 <= #[trigger] idx[k] < n && kept_dirty(tabs, dirty, n)[k] == tabs[idx[k]],
        forall|k: int, l: int| 0 <= k < l < idx.len() ==> idx[k] < idx[l],
    decreases n,
{
    if n == 0 {
        Seq::empty()
    } else {
        let prev = lemma_kept_in_order(tabs, dirty, (n - 1) as nat);
        if tab_is_clean(tabs, dirty, n - 1) {
            prev
        } else {
            prev.push(n - 1)
        }
    }
}

proof fn lemma_kept_distinct(tabs: Seq<EditorTab>, dirty: Seq<bool>, n: nat)
    requires
        n <= tabs.len(),
        dirty.len() == tabs.len(),
        distinct_paths(tabs),
    ensures
        distinct_paths(kept_dirty(tabs, dirty, n)),
{
    let idx = lemma_kept_in_order(tabs, dirty, n);
    let kept = kept_dirty(tabs, dirty, n);
    assert forall|k: int, l: int| 0 <= k < l < kept.len() implies kept[k].path@ != kept[l].path@ by {
        assert(idx[k] < idx[l]);
        assert(kept[k] == tabs[idx[k]]);
        assert(kept[l] == tabs[idx[l]]);
    }
}

/// `x` is one of the entries of `s`.
pub open spec fn is_pending_entry(s: Seq<PendingContent>, x: PendingContent) -> bool {
    exists|j: int| 0 <= j < s.len() && s[j] == x
}

/// Every entry of `cur` was an entry of `orig`.
pub open spec fn pending_taken_from(orig: Seq<PendingContent>, cur: Seq<PendingContent>) -> bool {
    forall|e: int| 0 <= e < cur.len() ==> #[trigger] is_pending_entry(orig, cur[e])
}

impl EditorArea {
    /// The active index is a valid tab, or 0 when there are no tabs.
    pub open spec fn wf(&self) -> bool {
        self.active_tab < self.tabs@.len() || (self.tabs@.len() == 0 && self.active_tab == 0)
    }

    /// An empty editor area.
    pub fn new() -> (res: Self)
        ensures
            res.wf(),
            res.tabs@.len() == 0,
            res.pending_contents@.len() == 0,
            res.active_tab == 0,
            res.pending_close_tab is None,
            res.context_menu is None,
            res.rename_state is None,
            !res.quick_fix_state.is_open,
            res.quick_fix_state.items@.len() == 0,
    {
        EditorArea {
            tabs: Vec::new(),
            pending_contents: Vec::new(),
            active_tab: 0,
            pending_close_tab: None,
            context_menu: None,
            rename_state: None,
            quick_fix_state: QuickFixState { is_open: false, items: Vec::new() },
        }
    }

    /// The first tab with the given path.
    pub fn position_of_path(&self, path: &str) -> (res: Option<usize>)
        ensures
            match res {
                Some(i) => first_with_path(self.tabs@, path@, i as int),
                None => no_tab_with_path(self.tabs@, path@),
            },
    {
        let p = chars_of(path);
        let mut i: usize = 0;
        while i < self.tabs.len()
            invariant
                i <= self.tabs@.len(),
                p@ == path@,
                forall|j: int| 0 <= j < i ==> self.tabs@[j].path@ != path@,
            decreases self.tabs.len() - i,
        {
            let tp = chars_of(self.tabs[i].path.as_str());
            if chars_equal(&tp, &p) {
                return Some(i);
            }
            i = i + 1;
        }
        None
    }

    /// The first tab with the given title.
    pub fn position_of_title(&self, title: &str) -> (res: Option<usize>)
        ensures
            match res {
                Some(i) => first_with_title(self.tabs@, title@, i as int),
                None => forall|j: int| 0 <= j < self.tabs@.len() ==> self.tabs@[j].title@ != title@,
            },
    {
        let p = chars_of(title);
        let mut i: usize = 0;
        while i < self.tabs.len()
            invariant
                i <= self.tabs@.len(),
                p@ == title@,
                forall|j: int| 0 <= j < i ==> self.tabs@[j].title@ != title@,
            decreases self.tabs.len() - i,
        {
            let tp = chars_of(self.tabs[i].title.as_str());
            if chars_equal(&tp, &p) {
                return Some(i);
            }
            i = i + 1;
        }
        None
    }

    /// The first pending entry for the given path.
    fn pending_position(&self, path: &str) -> (res: Option<usize>)
        ensures
            match res {
                Some(i) => first_pending(self.pending_contents@, path@, i as int),
                None => no_pending(self.pending_contents@, path@),
            },
    {
        let p = chars_of(path);
        let mut i: usize = 0;
        while i < self.pending_contents.len()
            invariant
                i <= self.pending_contents@.len(),
                p@ == path@,
                forall|j: int| 0 <= j < i ==> self.pending_contents@[j].path@ != path@,
            decreases self.pending_contents.len() - i,
        {
            let tp = chars_of(self.pending_contents[i].path.as_str());
            if chars_equal(&tp, &p) {
                return Some(i);
            }
            i = i + 1;
        }
        None
    }

    /// Records the text waiting for the editor of the tab with this path.
    fn insert_pending(&mut self, path: String, content: String)
        ensures
            pending_after_insert(old(self).pending_contents@, final(self).pending_contents@, path@, content@),
            final(self).tabs == old(self).tabs,
            final(self).active_tab == old(self).active_tab,
            final(self).pending_close_tab == old(self).pending_close_tab,
            final(self).context_menu == old(self).context_menu,
            final(self).rename_state == old(self).rename_state,
            final(self).quick_fix_state == old(self).quick_fix_state,
    {
        match self.pending_position(path.as_str()) {
            Some(i) => {
                let ghost old_s = self.pending_contents@;
                self.pending_contents.set(i, PendingContent { path, content });
                assert(first_pending(old_s, self.pending_contents@[i as int].path@, i as int));
            },
            None => {
                let ghost old_s = self.pending_contents@;
                self.pending_contents.push(PendingContent { path, content });
                assert(self.pending_contents@.take(old_s.len() as int) =~= old_s);
            },
        }
    }

    /// Opens (or focuses) the page tab at `address` (see `opens_page`).
    fn open_page(&mut self, address: &str, title: &str, settings: bool)
        ensures
            old(self).wf() ==> final(self).wf(),
            opens_page(*old(self), *final(self), address@, title@, settings),
    {
        match self.position_of_path(address) {
            Some(pos) => {
                self.active_tab = pos;
            },
            None => {
                let ghost old_tabs = self.tabs@;
                self.tabs.push(
                    EditorTab {
                        path: owned(address),
                        title: owned(title),
                        has_editor: false,
                        has_settings_view: settings,
                        has_keybindings_view: !settings,
                    },
                );
                self.active_tab = self.tabs.len() - 1;
                assert(self.tabs@ =~= old_tabs.push(self.tabs@.last()));
            },
        }
    }

    /// Opens the settings page tab, or focuses it when it is already open.
    pub fn open_settings(&mut self)
        ensures
            old(self).wf() ==> final(self).wf(),
            opens_page(*old(self), *final(self), settings_address(), "Settings"@, true),
            distinct_paths(old(self).tabs@) ==> distinct_paths(final(self).tabs@),
    {
        self.open_page("nucleus://settings", "Settings", true);
    }

    /// Opens the keyboard shortcuts page tab, or focuses it when it is already open.
    pub fn open_keybindings(&mut self)
        ensures
            old(self).wf() ==> final(self).wf(),
            opens_page(*old(self), *final(self), keybindings_address(), "Keyboard Shortcuts"@, false),
            distinct_paths(old(self).tabs@) ==> distinct_paths(final(self).tabs@),
    {
        self.open_page("nucleus://keybindings", "Keyboard Shortcuts", false);
    }

    /// Closes the tab at `idx` (nothing happens to the tabs when there is none);
    /// the active index moves to the last tab when it runs past the end. The
    /// context menu closes. The area must be well formed: with the active
    /// index past the tabs, closing the only tab would take one from zero.
    pub fn close_tab(&mut self, idx: usize)
        requires
            old(self).wf(),
        ensures
            final(self).wf(),
            closes_tab(*old(self), *final(self), idx as int),
            distinct_paths(old(self).tabs@) ==> distinct_paths(final(self).tabs@),
    {
        if idx < self.tabs.len() {
            self.tabs.remove(idx);
            if self.active_tab >= self.tabs.len() && self.active_tab > 0 {
                self.active_tab = self.tabs.len() - 1;
            }
        }
        self.context_menu = None;
    }

    /// Closes every tab but the one at `target_idx`, which becomes the only
    /// and active tab; nothing happens to the tabs when there is no such tab.
    pub fn close_others(&mut self, target_idx: usize)
        ensures
            distinct_paths(old(self).tabs@) ==> distinct_paths(final(self).tabs@),
            old(self).wf() ==> final(self).wf(),
            target_idx < old(self).tabs@.len() ==> final(self).tabs@ == seq![
                old(self).tabs@[target_idx as int],
            ] && final(self).active_tab == 0,
            target_idx >= old(self).tabs@.len() ==> final(self).tabs == old(self).tabs && final(self).active_tab == old(self).active_tab,
            final(self).context_menu is None,
            final(self).pending_contents == old(self).pending_contents,
    {
        if target_idx < self.tabs.len() {
            let target_tab = self.tabs.remove(target_idx);
            self.tabs.clear();
            self.tabs.push(target_tab);
            self.active_tab = 0;
        }
        self.context_menu = None;
    }

    /// Closes every tab to the right of `target_idx`; an active tab among
    /// them passes the focus to `target_idx`.
    pub fn close_to_right(&mut self, target_idx: usize)
        requires
            target_idx < usize::MAX,
        ensures
            distinct_paths(old(self).tabs@) ==> distinct_paths(final(self).tabs@),
            old(self).wf() ==> final(self).wf(),
            target_idx + 1 < old(self).tabs@.len() ==> final(self).tabs@ == old(self).tabs@.take(
                target_idx + 1,
            ) && final(self).active_tab == (if old(self).active_tab > target_idx {
                target_idx
            } else {
                old(self).active_tab
            }),
            target_idx + 1 >= old(self).tabs@.len() ==> final(self).tabs == old(self).tabs
                && final(self).active_tab == old(self).active_tab,
            final(self).context_menu is None,
            final(self).pending_contents == old(self).pending_contents,
    {
        if target_idx + 1 < self.tabs.len() {
            self.tabs.truncate(target_idx + 1);
            if self.active_tab > target_idx {
                self.active_tab = target_idx;
            }
        }
        self.context_menu = None;
    }

    /// Closes every tab that has no unsaved changes. `dirty[i]` says whether
    /// the editor of tab `i` has unsaved changes; a tab without an editor
    /// counts as saved. The active index stays, or moves to the last tab when
    /// it runs past the end. The area must be well formed: with the active
    /// index past the tabs, closing the only tab would take one from zero.
    pub fn close_saved(&mut self, dirty: &Vec<bool>)
        requires
            old(self).wf(),
            dirty@.len() == old(self).tabs@.len(),
        ensures
            distinct_paths(old(self).tabs@) ==> distinct_paths(final(self).tabs@),
            final(self).wf(),
            final(self).tabs@ == kept_dirty(old(self).tabs@, dirty@, old(self).tabs@.len()),
            final(self).active_tab == clamp_active(
                old(self).active_tab as int,
                final(self).tabs@.len() as int,
            ),
            final(self).context_menu is None,
            final(self).pending_contents == old(self).pending_contents,
    {
        let ghost orig = self.tabs@;
        let ghost a0 = self.active_tab;
        let mut i: usize = 0;
        let mut k: usize = 0;
        while k < dirty.len()
            invariant
                dirty@.len() == orig.len(),
                k <= orig.len(),
                i <= k,
                self.tabs@ == kept_dirty(orig, dirty@, k as nat) + orig.skip(k as int),
                i == kept_dirty(orig, dirty@, k as nat).len(),
                self.active_tab == clamp_active(a0 as int, self.tabs@.len() as int),
                self.active_tab < self.tabs@.len() || (self.tabs@.len() == 0
                    && self.active_tab == 0),
                a0 < orig.len() || (orig.len() == 0 && a0 == 0),
                self.pending_contents == old(self).pending_contents,
            decreases orig.len() - k,
        {
            proof {
                assert(self.tabs@[i as int] == orig[k as int]);
            }
            let is_dirty = self.tabs[i].has_editor && dirty[k];
            if !is_dirty {
                self.tabs.remove(i);
                assert(self.tabs@ =~= kept_dirty(orig, dirty@, (k + 1) as nat) + orig.skip(
                    (k + 1) as int,
                ));
                if self.active_tab >= self.tabs.len() && self.active_tab > 0 {
                    self.active_tab = self.tabs.len() - 1;
                }
            } else {
                i = i + 1;
                assert(self.tabs@ =~= kept_dirty(orig, dirty@, (k + 1) as nat) + orig.skip(
                    (k + 1) as int,
                ));
            }
            k = k + 1;
        }
        assert(self.tabs@ =~= kept_dirty(orig, dirty@, orig.len()));
        proof {
            if distinct_paths(orig) {
                lemma_kept_distinct(orig, dirty@, orig.len());
            }
        }
        self.context_menu = None;
    }

    /// Closes every tab.
    pub fn close_all(&mut self)
        ensures
            distinct_paths(old(self).tabs@) ==> distinct_paths(final(self).tabs@),
            final(self).wf(),
            final(self).tabs@.len() == 0,
            final(self).active_tab == 0,
            final(self).context_menu is None,
            final(self).pending_contents == old(self).pending_contents,
    {
        self.tabs.clear();
        self.active_tab = 0;
        self.context_menu = None;
    }

    /// Opens a tab for `path`, or focuses the tab already open for it. A new
    /// tab starts without an editor; its text waits in the pending contents.
    pub fn open_tab(&mut self, path: String, title: String, content: String)
        ensures
            old(self).wf() ==> final(self).wf(),
            opens_tab(*old(self), *final(self), path@, title@, content@),
            distinct_paths(old(self).tabs@) ==> distinct_paths(final(self).tabs@),
    {
        match self.position_of_path(path.as_str()) {
            Some(pos) => {
                self.active_tab = pos;
            },
            None => {
                let ghost old_tabs = self.tabs@;
                let tab_path = path.clone();
                self.tabs.push(
                    EditorTab {
                        path: tab_path,
                        title,
                        has_editor: false,
                        has_settings_view: false,
                        has_keybindings_view: false,
                    },
                );
                self.insert_pending(path, content);
                self.active_tab = self.tabs.len() - 1;
                assert(self.tabs@ =~= old_tabs.push(self.tabs@.last()));
            },
        }
    }

    /// Saving the active tab: gives the tab whose editor writes its file,
    /// the active tab when it exists and has an editor, else nothing.
    pub fn save_active_tab(&self) -> (res: Option<usize>)
        ensures
            res == (if self.active_tab < self.tabs@.len() && self.tabs@[self.active_tab as int].has_editor {
                Some(self.active_tab)
            } else {
                None
            }),
    {
        if self.active_tab < self.tabs.len() && self.tabs[self.active_tab].has_editor {
            Some(self.active_tab)
        } else {
            None
        }
    }

    /// After the file at `path` changed on disk: when a tab shows it and
    /// `is_dirty` (whether that tab's editor has unsaved changes) is false,
    /// and the file could be read (`new_content`), the tab drops its editor
    /// and the new text waits for a fresh one. Returns whether that happened.
    pub fn reload_tab_if_clean(&mut self, path: &str, is_dirty: bool, new_content: Option<String>) -> (res: bool)
        ensures
            distinct_paths(old(self).tabs@) ==> distinct_paths(final(self).tabs@),
            old(self).wf() ==> final(self).wf(),
            res == (!no_tab_with_path(old(self).tabs@, path@) && !is_dirty && new_content is Some),
            res ==> exists|i: int|
                #![trigger old(self).tabs@[i]]
                first_with_path(old(self).tabs@, path@, i) && final(self).tabs@ == old(self).tabs@.update(
                    i,
                    EditorTab { has_editor: false, ..old(self).tabs@[i] },
                ) && pending_after_insert(
                    old(self).pending_contents@,
                    final(self).pending_contents@,
                    path@,
                    new_content->0@,
                ),
            !res ==> final(self).tabs == old(self).tabs && final(self).pending_contents == old(self).pending_contents,
            final(self).active_tab == old(self).active_tab,
    {
        match self.position_of_path(path) {
            Some(i) => {
                if !is_dirty {
                    match new_content {
                        Some(c) => {
                            let ghost old_tabs = self.tabs@;
                            self.tabs.set(i, EditorTab {
                                path: self.tabs[i].path.clone(),
                                title: self.tabs[i].title.clone(),
                                has_editor: false,
                                has_settings_view: self.tabs[i].has_settings_view,
                                has_keybindings_view: self.tabs[i].has_keybindings_view,
                            });
                            assert(self.tabs@ =~= old_tabs.update(i as int, EditorTab { has_editor: false, ..old_tabs[i as int] }));
                            self.insert_pending(owned(path), c);
                            return true;
                        },
                        None => {},
                    }
                }
                false
            },
            None => false,
        }
    }

    /// Starts renaming the symbol `current_name`; the new name starts as the old one.
    pub fn start_rename(&mut self, current_name: String)
        ensures
            final(self).rename_state matches Some(r) && r.current_name@ == current_name@
                && r.new_name@ == current_name@,
            *final(self) == (EditorArea { rename_state: final(self).rename_state, ..*old(self) }),
    {
        self.rename_state = Some(RenameState { new_name: current_name.clone(), current_name });
    }

    /// The rename box's buttons, `Cancel` and `Rename` alike: the box closes.
    pub fn close_rename(&mut self)
        ensures
            *final(self) == (EditorArea { rename_state: None, ..*old(self) }),
    {
        self.rename_state = None;
    }

    /// Opens the quick-fix popup with the given actions.
    pub fn show_quick_fix(&mut self, items: Vec<QuickFixItem>)
        ensures
            *final(self) == (EditorArea { quick_fix_state: QuickFixState { is_open: true, items }, ..*old(self) }),
    {
        self.quick_fix_state = QuickFixState { is_open: true, items };
    }

    /// Whether the quick-fix popup shows: it is open and has actions.
    pub fn quick_fix_visible(&self) -> (res: bool)
        ensures
            res == (self.quick_fix_state.is_open && self.quick_fix_state.items@.len() > 0),
    {
        self.quick_fix_state.is_open && self.quick_fix_state.items.len() > 0
    }

    /// A click on a quick-fix action: the popup closes, keeping its actions.
    pub fn close_quick_fix(&mut self)
        ensures
            final(self).quick_fix_state.items == old(self).quick_fix_state.items,
            !final(self).quick_fix_state.is_open,
            *final(self) == (EditorArea { quick_fix_state: final(self).quick_fix_state, ..*old(self) }),
    {
        self.quick_fix_state.is_open = false;
    }

    /// What the area shows: the welcome screen without tabs, else the page or
    /// editor of the active tab (the settings page first, then the shortcuts
    /// page, then the editor), a loading note while its editor is not created,
    /// and nothing when no tab is active.
    pub fn active_content(&self) -> (res: AreaContent)
        ensures
            res == (if self.tabs@.len() == 0 {
                AreaContent::Welcome
            } else if self.active_tab >= self.tabs@.len() {
                AreaContent::Blank
            } else if self.tabs@[self.active_tab as int].has_settings_view {
                AreaContent::Settings
            } else if self.tabs@[self.active_tab as int].has_keybindings_view {
                AreaContent::Keybindings
            } else if self.tabs@[self.active_tab as int].has_editor {
                AreaContent::Editor
            } else {
                AreaContent::Loading
            }),
    {
        if self.tabs.len() == 0 {
            AreaContent::Welcome
        } else if self.active_tab >= self.tabs.len() {
            AreaContent::Blank
        } else {
            let tab = &self.tabs[self.active_tab];
            if tab.has_settings_view {
                AreaContent::Settings
            } else if tab.has_keybindings_view {
                AreaContent::Keybindings
            } else if tab.has_editor {
                AreaContent::Editor
            } else {
                AreaContent::Loading
            }
        }
    }

    /// Whether tab `idx` shows the unsaved-changes dot: it has an editor and
    /// that editor has unsaved changes (`is_dirty`).
    pub fn shows_dirty_dot(&self, idx: usize, is_dirty: bool) -> (res: bool)
        ensures
            res == (idx < self.tabs@.len() && self.tabs@[idx as int].has_editor && is_dirty),
    {
        idx < self.tabs.len() && self.tabs[idx].has_editor && is_dirty
    }

    /// A click anywhere in the area closes the tab context menu.
    pub fn dismiss_context_menu(&mut self)
        ensures
            *final(self) == (EditorArea { context_menu: None, ..*old(self) }),
    {
        self.context_menu = None;
    }

    /// A click on tab `idx`: it becomes active and the context menu closes.
    pub fn select_tab(&mut self, idx: usize)
        requires
            idx < old(self).tabs@.len(),
        ensures
            final(self).wf(),
            final(self).active_tab == idx,
            final(self).context_menu is None,
            final(self).tabs == old(self).tabs,
    {
        self.active_tab = idx;
        self.context_menu = None;
    }

    /// A right click on tab `idx`: it becomes active and its context menu opens.
    pub fn open_context_menu(&mut self, idx: usize)
        requires
            idx < old(self).tabs@.len(),
        ensures
            final(self).wf(),
            final(self).active_tab == idx,
            final(self).context_menu matches Some(m) && m.tab_index == idx,
            final(self).tabs == old(self).tabs,
    {
        self.active_tab = idx;
        self.context_menu = Some(TabContextMenu { tab_index: idx });
    }

    /// Closes the tab whose close was requested, if any, and clears the request.
    pub fn apply_pending_close(&mut self)
        requires
            old(self).wf(),
        ensures
            final(self).wf(),
            final(self).pending_close_tab is None,
            match old(self).pending_close_tab {
                Some(idx) => closes_tab(
                    EditorArea { pending_close_tab: None, ..*old(self) },
                    *final(self),
                    idx as int,
                ),
                None => *final(self) == *old(self),
            },
            distinct_paths(old(self).tabs@) ==> distinct_paths(final(self).tabs@),
    {
        if let Some(idx) = self.pending_close_tab.take() {
            self.close_tab(idx);
        }
    }

    /// Hands out the editors to create: for each tab, in order, with neither
    /// an editor nor a settings page and with pending text for its path, the
    /// text leaves the pending contents and the tab is marked as having an
    /// editor. Afterwards no tab still waiting for an editor has pending text.
    pub fn take_editors_to_create(&mut self) -> (res: Vec<EditorToCreate>)
        ensures
            old(self).wf() ==> final(self).wf(),
            distinct_paths(old(self).tabs@) ==> distinct_paths(final(self).tabs@),
            *final(self) == (EditorArea {
                tabs: final(self).tabs,
                pending_contents: final(self).pending_contents,
                ..*old(self)
            }),
            final(self).tabs@.len() == old(self).tabs@.len(),
            forall|i: int|
                0 <= i < old(self).tabs@.len() ==> #[trigger] final(self).tabs@[i] == (EditorTab {
                    has_editor: final(self).tabs@[i].has_editor,
                    ..old(self).tabs@[i]
                }),
            forall|i: int|
                0 <= i < old(self).tabs@.len() ==> (#[trigger] final(self).tabs@[i].has_editor <==> (
                old(self).tabs@[i].has_editor || exists|k: int|
                    0 <= k < res@.len() && res@[k].tab_index == i)),
            forall|k: int|
                0 <= k < res@.len() ==> {
                    let i = #[trigger] res@[k].tab_index as int;
                    &&& 0 <= i < old(self).tabs@.len()
                    &&& !old(self).tabs@[i].has_editor
                    &&& !old(self).tabs@[i].has_settings_view
                    &&& res@[k].path@ == old(self).tabs@[i].path@
                    &&& exists|j: int|
                        0 <= j < old(self).pending_contents@.len()
                            && #[trigger] old(self).pending_contents@[j].path@ == res@[k].path@
                            && old(self).pending_contents@[j].content == res@[k].content
                },
            forall|k: int, l: int| 0 <= k < l < res@.len() ==> res@[k].tab_index < res@[l].tab_index,
            pending_taken_from(old(self).pending_contents@, final(self).pending_contents@),
            forall|i: int|
                0 <= i < final(self).tabs@.len() && !(#[trigger] final(self).tabs@[i]).has_editor
                    && !final(self).tabs@[i].has_settings_view ==> no_pending(
                    final(self).pending_contents@,
                    final(self).tabs@[i].path@,
                ),
    {
        let mut res: Vec<EditorToCreate> = Vec::new();
        let mut i: usize = 0;
        let ghost orig = self.tabs@;
        let ghost orig_pending = self.pending_contents@;
        assert(pending_taken_from(orig_pending, self.pending_contents@)) by {
            assert forall|e: int| 0 <= e < orig_pending.len() implies #[trigger] is_pending_entry(orig_pending, orig_pending[e]) by {
                assert(orig_pending[e] == orig_pending[e]);
            }
        }
        while i < self.tabs.len()
            invariant
                *self == (EditorArea { tabs: self.tabs, pending_contents: self.pending_contents, ..*old(self) }),
                self.tabs@.len() == orig.len(),
                orig == old(self).tabs@,
                orig_pending == old(self).pending_contents@,
                i <= orig.len(),
                forall|j: int|
                    0 <= j < orig.len() ==> #[trigger] self.tabs@[j] == (EditorTab {
                        has_editor: self.tabs@[j].has_editor,
                        ..orig[j]
                    }),
                forall|j: int| i <= j < orig.len() ==> #[trigger] self.tabs@[j] == orig[j],
                forall|j: int|
                    0 <= j < i ==> (#[trigger] self.tabs@[j].has_editor <==> (orig[j].has_editor
                        || exists|k: int| 0 <= k < res@.len() && res@[k].tab_index == j)),
                forall|k: int|
                    0 <= k < res@.len() ==> {
                        let t = #[trigger] res@[k].tab_index as int;
                        &&& 0 <= t < i
                        &&& !orig[t].has_editor
                        &&& !orig[t].has_settings_view
                        &&& res@[k].path@ == orig[t].path@
                        &&& exists|j: int|
                            0 <= j < orig_pending.len() && #[trigger] orig_pending[j].path@
                                == res@[k].path@ && orig_pending[j].content == res@[k].content
                    },
                forall|k: int, l: int| 0 <= k < l < res@.len() ==> res@[k].tab_index < res@[l].tab_index,
                forall|j: int|
                    0 <= j < i && !(#[trigger] self.tabs@[j]).has_editor
                        && !self.tabs@[j].has_settings_view ==> no_pending(
                        self.pending_contents@,
                        self.tabs@[j].path@,
                    ),
                pending_taken_from(orig_pending, self.pending_contents@),
            decreases orig.len() - i,
        {
            if !self.tabs[i].has_editor && !self.tabs[i].has_settings_view {
                let path = self.tabs[i].path.clone();
                match self.pending_position(path.as_str()) {
                    Some(p) => {
                        let ghost before_pending = self.pending_contents@;
                        let ghost before_res = res@;
                        let entry = self.pending_contents.remove(p);
                        assert(before_pending[p as int] == before_pending[p as int]);
                        assert(is_pending_entry(orig_pending, before_pending[p as int]));
                        let ghost jj = choose|j: int| 0 <= j < orig_pending.len() && orig_pending[j] == before_pending[p as int];
                        assert(0 <= jj < orig_pending.len() && orig_pending[jj] == before_pending[p as int]);
                        assert(orig_pending[jj].path@ == path@ && orig_pending[jj].content == entry.content);
                        assert forall|e: int| 0 <= e < self.pending_contents@.len() implies #[trigger] is_pending_entry(orig_pending, self.pending_contents@[e]) by {
                            if e < p {
                                assert(self.pending_contents@[e] == before_pending[e]);
                            } else {
                                assert(self.pending_contents@[e] == before_pending[e + 1]);
                            }
                        }
                        self.tabs.set(i, EditorTab {
                            path: self.tabs[i].path.clone(),
                            title: self.tabs[i].title.clone(),
                            has_editor: true,
                            has_settings_view: self.tabs[i].has_settings_view,
                            has_keybindings_view: self.tabs[i].has_keybindings_view,
                        });
                        res.push(EditorToCreate { tab_index: i, path, content: entry.content });
                        assert forall|k: int| 0 <= k < res@.len() implies {
                            let t = #[trigger] res@[k].tab_index as int;
                            &&& 0 <= t < i + 1
                            &&& !orig[t].has_editor
                            &&& !orig[t].has_settings_view
                            &&& res@[k].path@ == orig[t].path@
                            &&& exists|j: int|
                                0 <= j < orig_pending.len() && #[trigger] orig_pending[j].path@
                                    == res@[k].path@ && orig_pending[j].content == res@[k].content
                        } by {
                            if k < before_res.len() {
                                assert(res@[k] == before_res[k]);
                            } else {
                                assert(orig_pending[jj].path@ == res@[k].path@);
                            }
                        }
                        assert forall|j: int|
                            0 <= j < i + 1 && !(#[trigger] self.tabs@[j]).has_editor
                                && !self.tabs@[j].has_settings_view implies no_pending(
                                self.pending_contents@,
                                self.tabs@[j].path@,
                            ) by {
                            assert forall|x: int| 0 <= x < self.pending_contents@.len() implies self.pending_contents@[x].path@ != self.tabs@[j].path@ by {
                                if x < p {
                                    assert(self.pending_contents@[x] == before_pending[x]);
                                } else {
                                    assert(self.pending_contents@[x] == before_pending[x + 1]);
                                }
                            }
                        }
                        assert forall|j: int| 0 <= j < i + 1 implies (#[trigger] self.tabs@[j].has_editor <==> (orig[j].has_editor
                            || exists|k: int| 0 <= k < res@.len() && res@[k].tab_index == j)) by {
                            if j < i {
                                if exists|k: int| 0 <= k < before_res.len() && before_res[k].tab_index == j {
                                    let k = choose|k: int| 0 <= k < before_res.len() && before_res[k].tab_index == j;
                                    assert(res@[k] == before_res[k]);
                                }
                                if exists|k: int| 0 <= k < res@.len() && res@[k].tab_index == j {
                                    let k = choose|k: int| 0 <= k < res@.len() && res@[k].tab_index == j;
                                    if k < before_res.len() {
                                        assert(res@[k] == before_res[k]);
                                    }
                                }
                            } else {
                                assert(res@[before_res.len() as int].tab_index == i);
                            }
                        }
                    },
                    None => {
                        assert forall|j: int| 0 <= j < i + 1 implies (#[trigger] self.tabs@[j].has_editor <==> (orig[j].has_editor
                            || exists|k: int| 0 <= k < res@.len() && res@[k].tab_index == j)) by {
                            if j == i {
                                if exists|k: int| 0 <= k < res@.len() && res@[k].tab_index == j {
                                    let k = choose|k: int| 0 <= k < res@.len() && res@[k].tab_index == j;
                                }
                            }
                        }
                    },
                }
            } else {
                assert forall|j: int| 0 <= j < i + 1 implies (#[trigger] self.tabs@[j].has_editor <==> (orig[j].has_editor
                    || exists|k: int| 0 <= k < res@.len() && res@[k].tab_index == j)) by {
                    if j == i {
                        if exists|k: int| 0 <= k < res@.len() && res@[k].tab_index == j {
                            let k = choose|k: int| 0 <= k < res@.len() && res@[k].tab_index == j;
                        }
                    }
                }
            }
            i = i + 1;
        }
        res
    }

    /// The language used to highlight the file at `path`: from the path's
    /// file name (see `language_of_file_name`), or `"text"` without one. For a
    /// path split at `/` (see `portable_path`) the file name is the part after
    /// the last `/`.
    pub fn detect_language(path_str: &str) -> (res: &'static str)
        ensures
            exists|n: Seq<char>|
                !n.contains('/') && res@ == language_of_file_name(n),
            plain_name(path_str@) ==> res@ == language_of_file_name(path_str@),
            portable_path(path_str@) ==> res@ == language_of_file_name(after_last_slash(path_str@)),
    {
        match path_file_name(path_str) {
            Some(name) => {
                let r = language_for_file_name(name.as_str());
                assert(!name@.contains('/') && r@ == language_of_file_name(name@));
                r
            },
            None => {
                let empty = String::new();
                let r = language_for_file_name(empty.as_str());
                assert(!empty@.contains('/') && r@ == language_of_file_name(empty@));
                r
            },
        }
    }
}

/// The language used to highlight a file with the given name.
pub fn language_for_file_name(name: &str) -> (res: &'static str)
    ensures
        res@ == language_of_file_name(name@),
{
    let n = chars_of(name);
    let lock = chars_of(".lock");
    if has_suffix(&n, &lock) || crate::text::same_text(name, "Cargo.lock") || crate::text::same_text(name, "Pipfile")
        || crate::text::same_text(name, "Gopkg.lock") {
        return "toml";
    }
    if has_extension(&n, "rs") {
        "rust"
    } else if has_extension(&n, "toml") {
        "toml"
    } else if has_extension(&n, "json") {
        "json"
    } else if has_extension(&n, "js") {
        "javascript"
    } else if has_extension(&n, "ts") {
        "typescript"
    } else if has_extension(&n, "md") {
        "markdown"
    } else if has_extension(&n, "yaml") || has_extension(&n, "yml") {
        "yaml"
    } else {
        "text"
    }
}

/// Opening a path that is open already changes no tab: it only focuses the
/// tab that shows it, so opening the same path twice is the same as once.
pub proof fn law_open_tab_twice(
    a: EditorArea,
    b: EditorArea,
    c: EditorArea,
    p: Seq<char>,
    t1: Seq<char>,
    c1: Seq<char>,
    t2: Seq<char>,
    c2: Seq<char>,
)
    requires
        distinct_paths(a.tabs@),
        opens_tab(a, b, p, t1, c1),
        opens_tab(b, c, p, t2, c2),
    ensures
        c.tabs == b.tabs,
        c.active_tab == b.active_tab,
        c.pending_contents == b.pending_contents,
{
    assert(!no_tab_with_path(b.tabs@, p)) by {
        assert(b.tabs@[b.active_tab as int].path@ == p);
    }
    if no_tab_with_path(a.tabs@, p) {
        assert(b.tabs@[a.tabs@.len() as int].path@ == p);
        assert forall|j: int| 0 <= j < a.tabs@.len() implies b.tabs@[j].path@ != p by {
            assert(b.tabs@[j] == a.tabs@[j]);
        }
    } else {
        let i = b.active_tab as int;
        let k = c.active_tab as int;
        assert(first_with_path(a.tabs@, p, i));
        assert(first_with_path(a.tabs@, p, k));
        if i < k {
            assert(a.tabs@[i].path@ == p);
        }
        if k < i {
            assert(a.tabs@[k].path@ == p);
        }
    }
}

/// Closing the tab that opening a new path just added gives back the tab
/// list there was before.
pub proof fn law_close_undoes_open(
    a: EditorArea,
    b: EditorArea,
    c: EditorArea,
    p: Seq<char>,
    t: Seq<char>,
    content: Seq<char>,
)
    requires
        a.wf(),
        no_tab_with_path(a.tabs@, p),
        opens_tab(a, b, p, t, content),
        closes_tab(b, c, b.active_tab as int),
    ensures
        c.tabs@ == a.tabs@,
{
    assert(b.tabs@.remove(a.tabs@.len() as int) =~= a.tabs@);
}

/// Closing a tab keeps the active index while it still points into the
/// shorter list, so the active tab stays the same tab when it was before the
/// closed one; only an active index that runs past the end moves, to the new
/// last tab.
pub proof fn law_close_keeps_active_index(a: EditorArea, b: EditorArea, idx: int)
    requires
        a.wf(),
        closes_tab(a, b, idx),
        0 <= idx < a.tabs@.len(),
    ensures
        b.tabs@.len() == a.tabs@.len() - 1,
        a.active_tab < a.tabs@.len() - 1 ==> b.active_tab == a.active_tab,
        a.active_tab < idx ==> b.tabs@[b.active_tab as int] == a.tabs@[a.active_tab as int],
        a.active_tab >= a.tabs@.len() - 1 && a.tabs@.len() >= 2 ==> b.active_tab == a.tabs@.len() - 2,
        a.tabs@.len() == 1 ==> b.active_tab == 0,
{
}

/// A name that ends in `.lock` has the extension `lock`, or none when it is
/// `.lock` itself.
proof fn lemma_lock_extension(n: Seq<char>)
    requires
        ends_with(n, ".lock"@),
    ensures
        extension_of(n) == Some("lock"@) || extension_of(n) is None,
{
    reveal_strlit(".lock");
    reveal_strlit("lock");
    let d = n.len() - 5;
    assert(n.skip(d) == ".lock"@);
    assert(n[d] == '.') by {
        assert(n.skip(d)[0] == n[d]);
    }
    assert forall|j: int| d < j < n.len() implies n[j] != '.' by {
        assert(n.skip(d)[j - d] == n[j]);
    }
    assert(exists|i: int| 0 <= i < n.len() && n[i] == '.');
    let c = choose|i: int| 0 <= i < n.len() && n[i] == '.' && forall|j: int| i < j < n.len() ==> n[j] != '.';
    assert(0 <= c < n.len() && n[c] == '.' && forall|j: int| c < j < n.len() ==> n[j] != '.') by {
        assert(0 <= d < n.len() && n[d] == '.' && forall|j: int| d < j < n.len() ==> n[j] != '.');
    }
    if c < d {
        assert(n[d] == '.');
    }
    assert(c == d);
    assert(n.skip(d + 1) =~= "lock"@) by {
        assert forall|j: int| 0 <= j < 4 implies n.skip(d + 1)[j] == "lock"@[j] by {
            assert(n.skip(d)[j + 1] == n[d + 1 + j]);
        }
    }
}

/// The language follows the file name: a name ending in `.lock`, and
/// `Pipfile`, are TOML; otherwise the extension decides, case-sensitively:
/// `rs` is Rust, `toml` TOML, `json` JSON, `js` JavaScript, `ts` TypeScript,
/// `md` Markdown, `yaml` and `yml` YAML; any other extension, or none, is
/// plain text.
pub proof fn law_language_by_extension(n: Seq<char>)
    ensures
        ends_with(n, ".lock"@) ==> language_of_file_name(n) == "toml"@,
        n == "Pipfile"@ ==> language_of_file_name(n) == "toml"@,
        extension_of(n) == Some("rs"@) ==> language_of_file_name(n) == "rust"@,
        extension_of(n) == Some("toml"@) ==> language_of_file_name(n) == "toml"@,
        extension_of(n) == Some("json"@) ==> language_of_file_name(n) == "json"@,
        extension_of(n) == Some("js"@) ==> language_of_file_name(n) == "javascript"@,
        extension_of(n) == Some("ts"@) ==> language_of_file_name(n) == "typescript"@,
        extension_of(n) == Some("md"@) ==> language_of_file_name(n) == "markdown"@,
        extension_of(n) == Some("yaml"@) ==> language_of_file_name(n) == "yaml"@,
        extension_of(n) == Some("yml"@) ==> language_of_file_name(n) == "yaml"@,
        extension_of(n) is None && !ends_with(n, ".lock"@) && n != "Pipfile"@ ==> language_of_file_name(n)
            == "text"@,
{
    reveal_strlit("lock");
    reveal_strlit("rs");
    reveal_strlit("toml");
    reveal_strlit("json");
    reveal_strlit("js");
    reveal_strlit("ts");
    reveal_strlit("md");
    reveal_strlit("yaml");
    reveal_strlit("yml");
    reveal_strlit(".lock");
    reveal_strlit("Cargo.lock");
    reveal_strlit("Gopkg.lock");
    if ends_with(n, ".lock"@) {
        lemma_lock_extension(n);
    }
    if n == "Cargo.lock"@ {
        assert(n.skip(n.len() - 5) =~= ".lock"@);
        lemma_lock_extension(n);
    }
    if n == "Gopkg.lock"@ {
        assert(n.skip(n.len() - 5) =~= ".lock"@);
        lemma_lock_extension(n);
    }
    if n == "Pipfile"@ {
        reveal_strlit("Pipfile");
        assert(!(exists|i: int| 0 <= i < n.len() && n[i] == '.'));
        assert(last_dot(n) is None);
    }
    assert("rs"@.len() == 2 && "js"@.len() == 2 && "ts"@.len() == 2 && "md"@.len() == 2);
    assert("lock"@.len() == 4 && "toml"@.len() == 4 && "json"@.len() == 4 && "yaml"@.len() == 4);
    assert("yml"@.len() == 3);
    assert("rs"@[0] != "js"@[0] && "rs"@[0] != "ts"@[0] && "rs"@[0] != "md"@[0]);
    assert("js"@[0] != "ts"@[0] && "js"@[0] != "md"@[0] && "ts"@[0] != "md"@[0]);
    assert("lock"@[0] != "toml"@[0] && "lock"@[0] != "json"@[0] && "lock"@[0] != "yaml"@[0]);
    assert("toml"@[0] != "json"@[0] && "toml"@[0] != "yaml"@[0] && "json"@[0] != "yaml"@[0]);
}

} // verus!
