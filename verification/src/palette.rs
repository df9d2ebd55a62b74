//! The command palette and quick file open: its modes, its items, how a query
//! filters and ranks them, and what picking one does.
use vstd::prelude::*;

use crate::fuzzy::{fuzzy_match, fuzzy_match_checked, fuzzy_match_spec, scan_defined, uppercase_flags};
use crate::paths::{before_last_slash, clean_relative, path_parent};
use crate::text::{chars_of, concat_chars, lowercase_of, owned, replace_char, replace_char_exec, same_text, string_of};

verus! {

/// What the palette searches.
#[derive(Clone, Copy, Debug, PartialEq, Eq, Structural)]
pub enum PaletteMode {
    /// Files of the project (Ctrl+P).
    FileSearch,
    /// Editor commands (Ctrl+Shift+P).
    CommandPalette,
}

/// One entry the palette can offer.
pub enum PaletteItem {
    File { path: String, file_name: String, dir: String },
    Command { title: String, category: String, command: String, shortcut: Option<String> },
}

impl Clone for PaletteItem {
    fn clone(&self) -> (res: Self)
        ensures
            res == *self,
    {
        match self {
            PaletteItem::File { path, file_name, dir } => PaletteItem::File {
                path: path.clone(),
                file_name: file_name.clone(),
                dir: dir.clone(),
            },
            PaletteItem::Command { title, category, command, shortcut } => {
                let s = match shortcut {
                    Some(x) => Some(x.clone()),
                    None => None,
                };
                PaletteItem::Command {
                    title: title.clone(),
                    category: category.clone(),
                    command: command.clone(),
                    shortcut: s,
                }
            },
        }
    }
}

/// The palette (its keyboard focus lives in the UI layer).
pub struct CommandPalette {
    pub is_open: bool,
    pub mode: PaletteMode,
    pub query: String,
    pub selected_index: usize,
    pub all_files: Vec<PaletteItem>,
    pub all_commands: Vec<PaletteItem>,
}

/// What picking an item asks of the outside world.
pub enum PaletteEffect {
    /// Read the file at `path` and open it in a tab titled `title`.
    OpenFile { path: String, title: String },
    /// Announce that the command was run.
    RunCommand { command: String },
}

/// The `i`-th editor command the palette offers, as its category, title,
/// command id and shortcut (see `CommandPalette::default_commands`).
pub open spec fn default_command(i: int) -> (Seq<char>, Seq<char>, Seq<char>, Option<Seq<char>>) {
    if i == 0 {
        ("File"@, "New File"@, "file.new"@, Some("Ctrl+N"@))
    } else if i == 1 {
        ("File"@, "Save"@, "file.save"@, Some("Ctrl+S"@))
    } else if i == 2 {
        ("File"@, "Save All"@, "file.save_all"@, None)
    } else if i == 3 {
        ("View"@, "Toggle Primary Sidebar"@, "view.toggle_sidebar"@, Some("Ctrl+B"@))
    } else if i == 4 {
        ("View"@, "Toggle Terminal"@, "view.toggle_terminal"@, Some("Ctrl+`"@))
    } else if i == 5 {
        ("View"@, "Show Explorer"@, "view.show_explorer"@, Some("Ctrl+Shift+E"@))
    } else if i == 6 {
        ("View"@, "Show Source Control"@, "view.show_git"@, Some("Ctrl+Shift+G"@))
    } else if i == 7 {
        ("Git"@, "Commit"@, "git.commit"@, None)
    } else if i == 8 {
        ("Git"@, "Refresh Status"@, "git.refresh"@, None)
    } else if i == 9 {
        ("Terminal"@, "New Terminal"@, "terminal.new"@, Some("Ctrl+Shift+`"@))
    } else if i == 10 {
        ("Terminal"@, "Clear Terminal"@, "terminal.clear"@, None)
    } else {
        ("Preferences"@, "Open Settings"@, "preferences.open_settings"@, Some("Ctrl+,"@))
    }
}

/// A command item's category, title, command id and shortcut; nothing for a file.
pub open spec fn command_view(item: PaletteItem) -> Option<(Seq<char>, Seq<char>, Seq<char>, Option<Seq<char>>)> {
    match item {
        PaletteItem::Command { title, category, command, shortcut } => Some((
            category@,
            title@,
            command@,
            match shortcut {
                Some(s) => Some(s@),
                None => None,
            },
        )),
        PaletteItem::File { .. } => None,
    }
}

/// `items` are the palette's default editor commands, in order (see `default_command`).
pub open spec fn are_default_commands(items: Seq<PaletteItem>) -> bool {
    &&& items.len() == 12
    &&& forall|i: int| 0 <= i < 12 ==> command_view(#[trigger] items[i]) == Some(default_command(i))
}

/// The most items the palette lists.
pub open spec fn max_listed() -> int {
    30
}

/// The text a query is matched against: `dir/file_name` for a file,
/// `category: title` for a command.
pub open spec fn match_text(item: PaletteItem) -> Seq<char> {
    match item {
        PaletteItem::File { file_name, dir, .. } => dir@ + seq!['/'] + file_name@,
        PaletteItem::Command { title, category, .. } => category@ + seq![':', ' '] + title@,
    }
}

/// Every item's match text can be scanned (see `fuzzy_match`).
pub open spec fn all_scannable(query: Seq<char>, items: Seq<PaletteItem>) -> bool {
    query.len() > 0 ==> forall|i: int|
        0 <= i < items.len() ==> scan_defined(
            lowercase_of(query),
            lowercase_of(match_text(#[trigger] items[i])),
            match_text(items[i]),
            uppercase_flags(match_text(items[i])),
        )
}

/// The items among the first `n` that the query matches, with their scores, in order.
pub open spec fn scored_items(query: Seq<char>, items: Seq<PaletteItem>, n: nat) -> Seq<(int, PaletteItem)>
    decreases n,
{
    if n == 0 {
        Seq::empty()
    } else {
        let rest = scored_items(query, items, (n - 1) as nat);
        match fuzzy_match_spec(query, match_text(items[n - 1])) {
            Some((score, _)) => rest.push((score, items[n - 1])),
            None => rest,
        }
    }
}

/// `order` lists every index of `scores` once, highest score first, equal
/// scores in index order (the order a stable sort by descending score gives).
pub open spec fn stable_descending(scores: Seq<int>, order: Seq<int>) -> bool {
    &&& order.len() == scores.len()
    &&& forall|k: int| 0 <= k < order.len() ==> 0 <= #[trigger] order[k] < scores.len()
    &&& forall|k: int, l: int|
        0 <= k < l < order.len() ==> scores[order[k]] > scores[order[l]] || (scores[order[k]]
            == scores[order[l]] && order[k] < order[l])
}

/// The scores of scored items.
pub open spec fn scores_of(scored: Seq<(int, PaletteItem)>) -> Seq<int> {
    scored.map_values(|p: (int, PaletteItem)| p.0)
}

/// `res` is the first `max_listed()` of `scored`, ranked by descending score, stably.
pub open spec fn ranked(scored: Seq<(int, PaletteItem)>, res: Seq<PaletteItem>) -> bool {
    exists|order: Seq<int>|
        #[trigger] stable_descending(scores_of(scored), order) && res.len() == (
        if scored.len() < max_listed() {
            scored.len() as int
        } else {
            max_listed()
        }) && forall|k: int| 0 <= k < res.len() ==> #[trigger] res[k] == scored[order[k]].1
}

/// What the palette lists for `query` over `items`: the first `max_listed()`
/// items when the query is empty, else the matching items ranked by score.
pub open spec fn listed(query: Seq<char>, items: Seq<PaletteItem>, res: Seq<PaletteItem>) -> bool {
    if query.len() == 0 {
        res == items.take(if items.len() < max_listed() { items.len() as int } else { max_listed() })
    } else {
        ranked(scored_items(query, items, items.len()), res)
    }
}

/// A stable ordering of indices by descending score.
fn stable_order_desc(scores: &Vec<i32>) -> (order: Vec<usize>)
    ensures
        stable_descending(scores@.map_values(|s: i32| s as int), order@.map_values(|i: usize| i as int)),
{
    let ghost sc = scores@.map_values(|s: i32| s as int);
    let mut order: Vec<usize> = Vec::new();
    let mut j: usize = 0;
    while j < scores.len()
        invariant
            j <= scores@.len(),
            sc == scores@.map_values(|s: i32| s as int),
            order@.len() == j,
            forall|k: int| 0 <= k < order@.len() ==> #[trigger] order@[k] < j,
            forall|k: int, l: int|
                0 <= k < l < order@.len() ==> sc[order@[k] as int] > sc[order@[l] as int] || (
                sc[order@[k] as int] == sc[order@[l] as int] && order@[k] < order@[l]),
        decreases scores@.len() - j,
    {
        let sj = scores[j];
        let mut pos: usize = 0;
        while pos < order.len() && scores[order[pos]] >= sj
            invariant
                pos <= order@.len(),
                j < scores@.len(),
                sj == scores@[j as int],
                forall|k: int| 0 <= k < order@.len() ==> #[trigger] order@[k] < j,
                forall|k: int| 0 <= k < pos ==> scores@[#[trigger] order@[k] as int] >= sj,
            decreases order@.len() - pos,
        {
            pos = pos + 1;
        }
        let ghost before = order@;
        order.insert(pos, j);
        assert forall|k: int, l: int|
            0 <= k < l < order@.len() implies sc[order@[k] as int] > sc[order@[l] as int] || (
            sc[order@[k] as int] == sc[order@[l] as int] && order@[k] < order@[l]) by {
            if k < pos && l < pos {
                assert(order@[k] == before[k] && order@[l] == before[l]);
            } else if k < pos && l == pos {
                assert(order@[k] == before[k]);
                assert(scores@[before[k] as int] >= sj);
            } else if k < pos && l > pos {
                assert(order@[k] == before[k] && order@[l] == before[l - 1]);
            } else if k == pos {
                assert(order@[l] == before[l - 1]);
                assert(!(scores@[before[pos as int] as int] >= sj));
                if l - 1 > pos {
                    assert(sc[before[pos as int] as int] > sc[before[l - 1] as int] || (
                    sc[before[pos as int] as int] == sc[before[l - 1] as int] && before[pos as int] < before[l - 1]));
                }
            } else {
                assert(order@[k] == before[k - 1] && order@[l] == before[l - 1]);
            }
        }
        j = j + 1;
    }
    assert(order@.map_values(|i: usize| i as int).len() == sc.len());
    order
}

/// The first `max_listed()` items, ranked by descending score, stably.
pub fn rank_by_score(scored: &Vec<(i32, PaletteItem)>) -> (res: Vec<PaletteItem>)
    ensures
        ranked(scored@.map_values(|p: (i32, PaletteItem)| (p.0 as int, p.1)), res@),
{
    let ghost sp = scored@.map_values(|p: (i32, PaletteItem)| (p.0 as int, p.1));
    let mut scores: Vec<i32> = Vec::new();
    let mut i: usize = 0;
    while i < scored.len()
        invariant
            i <= scored@.len(),
            scores@.len() == i,
            forall|k: int| 0 <= k < i ==> #[trigger] scores@[k] == scored@[k].0,
        decreases scored@.len() - i,
    {
        scores.push(scored[i].0);
        i = i + 1;
    }
    let order = stable_order_desc(&scores);
    let ghost ord = order@.map_values(|x: usize| x as int);
    assert(scores@.map_values(|s: i32| s as int) =~= scores_of(sp));
    let limit: usize = if scored.len() < 30 { scored.len() } else { 30 };
    let mut res: Vec<PaletteItem> = Vec::new();
    let mut k: usize = 0;
    while k < limit
        invariant
            k <= limit,
            limit <= scored@.len(),
            order@.len() == scored@.len(),
            ord == order@.map_values(|x: usize| x as int),
            sp == scored@.map_values(|p: (i32, PaletteItem)| (p.0 as int, p.1)),
            forall|m: int| 0 <= m < order@.len() ==> 0 <= #[trigger] ord[m] < scored@.len(),
            res@.len() == k,
            forall|m: int| 0 <= m < k ==> #[trigger] res@[m] == sp[ord[m]].1,
        decreases limit - k,
    {
        assert(ord[k as int] == order@[k as int] as int);
        let idx = order[k];
        assert(sp[idx as int].1 == scored@[idx as int].1);
        let item = scored[idx].1.clone();
        res.push(item);
        k = k + 1;
    }
    assert(stable_descending(scores_of(sp), ord));
    res
}

/// The text a query is matched against.
pub fn match_text_of(item: &PaletteItem) -> (res: String)
    ensures
        res@ == match_text(*item),
{
    match item {
        PaletteItem::File { file_name, dir, .. } => {
            let a = chars_of(dir.as_str());
            let b = chars_of("/");
            let c = chars_of(file_name.as_str());
            let ab = concat_chars(&a, &b);
            let abc = concat_chars(&ab, &c);
            proof { reveal_strlit("/"); }
            assert(b@ =~= seq!['/']);
            string_of(&abc)
        },
        PaletteItem::Command { title, category, .. } => {
            let a = chars_of(category.as_str());
            let b = chars_of(": ");
            let c = chars_of(title.as_str());
            let ab = concat_chars(&a, &b);
            let abc = concat_chars(&ab, &c);
            proof { reveal_strlit(": "); }
            assert(b@ =~= seq![':', ' ']);
            string_of(&abc)
        },
    }
}

/// Lists what the palette shows for `query` over `items` (see `listed`).
pub fn filter_items(query: &str, items: &Vec<PaletteItem>) -> (res: Vec<PaletteItem>)
    requires
        all_scannable(query@, items@),
    ensures
        listed(query@, items@, res@),
{
    let qv = chars_of(query);
    if qv.len() == 0 {
        let limit: usize = if items.len() < 30 { items.len() } else { 30 };
        let mut res: Vec<PaletteItem> = Vec::new();
        let mut k: usize = 0;
        while k < limit
            invariant
                k <= limit,
                limit <= items@.len(),
                res@ == items@.take(k as int),
            decreases limit - k,
        {
            res.push(items[k].clone());
            k = k + 1;
            assert(res@ =~= items@.take(k as int));
        }
        return res;
    }
    let mut scored: Vec<(i32, PaletteItem)> = Vec::new();
    let mut i: usize = 0;
    while i < items.len()
        invariant
            i <= items@.len(),
            query@.len() > 0,
            all_scannable(query@, items@),
            scored@.map_values(|p: (i32, PaletteItem)| (p.0 as int, p.1)) == scored_items(
                query@,
                items@,
                i as nat,
            ),
        decreases items@.len() - i,
    {
        let text = match_text_of(&items[i]);
        let ghost prev = scored@;
        match fuzzy_match(query, text.as_str()) {
            Some(m) => {
                scored.push((m.score, items[i].clone()));
                assert(scored@.map_values(|p: (i32, PaletteItem)| (p.0 as int, p.1)) =~= prev.map_values(
                    |p: (i32, PaletteItem)| (p.0 as int, p.1),
                ).push((m.score as int, items@[i as int])));
            },
            None => {},
        }
        i = i + 1;
    }
    rank_by_score(&scored)
}

/// Whether every item's match text can be scanned for `query`.
pub fn items_scannable(query: &str, items: &Vec<PaletteItem>) -> (res: bool)
    ensures
        res == all_scannable(query@, items@),
{
    let qv = chars_of(query);
    if qv.len() == 0 {
        return true;
    }
    let mut i: usize = 0;
    while i < items.len()
        invariant
            i <= items@.len(),
            query@.len() > 0,
            forall|j: int|
                0 <= j < i ==> scan_defined(
                    lowercase_of(query@),
                    lowercase_of(match_text(#[trigger] items@[j])),
                    match_text(items@[j]),
                    uppercase_flags(match_text(items@[j])),
                ),
        decreases items@.len() - i,
    {
        let text = match_text_of(&items[i]);
        match fuzzy_match_checked(query, text.as_str()) {
            None => {
                return false;
            },
            Some(_) => {},
        }
        i = i + 1;
    }
    true
}

impl CommandPalette {
    /// The editor commands the palette offers.
    pub fn default_commands() -> (res: Vec<PaletteItem>)
        ensures
            are_default_commands(res@),
            forall|i: int| 0 <= i < res@.len() ==> (#[trigger] res@[i]) is Command,
    {
        let mut v: Vec<PaletteItem> = Vec::new();
        v.push(command_item("File", "New File", "file.new", Some("Ctrl+N")));
        v.push(command_item("File", "Save", "file.save", Some("Ctrl+S")));
        v.push(command_item("File", "Save All", "file.save_all", None));
        v.push(command_item("View", "Toggle Primary Sidebar", "view.toggle_sidebar", Some("Ctrl+B")));
        v.push(command_item("View", "Toggle Terminal", "view.toggle_terminal", Some("Ctrl+`")));
        v.push(command_item("View", "Show Explorer", "view.show_explorer", Some("Ctrl+Shift+E")));
        v.push(command_item("View", "Show Source Control", "view.show_git", Some("Ctrl+Shift+G")));
        v.push(command_item("Git", "Commit", "git.commit", None));
        v.push(command_item("Git", "Refresh Status", "git.refresh", None));
        v.push(command_item("Terminal", "New Terminal", "terminal.new", Some("Ctrl+Shift+`")));
        v.push(command_item("Terminal", "Clear Terminal", "terminal.clear", None));
        v.push(command_item("Preferences", "Open Settings", "preferences.open_settings", Some("Ctrl+,")));
        assert forall|i: int| 0 <= i < 12 implies command_view(#[trigger] v@[i]) == Some(default_command(i)) by {}
        v
    }

    /// A closed palette in file-search mode, with no files yet and the default commands.
    pub fn new() -> (res: Self)
        ensures
            !res.is_open,
            res.mode == PaletteMode::FileSearch,
            res.query@.len() == 0,
            res.selected_index == 0,
            res.all_files@.len() == 0,
            are_default_commands(res.all_commands@),
    {
        CommandPalette {
            is_open: false,
            mode: PaletteMode::FileSearch,
            query: String::new(),
            selected_index: 0,
            all_files: Vec::new(),
            all_commands: Self::default_commands(),
        }
    }

    /// Opens the palette on file search with an empty query. `files` are the
    /// project's files when a project folder is open; otherwise the file list stays.
    pub fn open_file_search(&mut self, files: Option<Vec<PaletteItem>>)
        ensures
            final(self).is_open,
            final(self).mode == PaletteMode::FileSearch,
            final(self).query@.len() == 0,
            final(self).selected_index == 0,
            match files {
                Some(f) => final(self).all_files == f,
                None => final(self).all_files == old(self).all_files,
            },
            *final(self) == (CommandPalette {
                is_open: true,
                mode: PaletteMode::FileSearch,
                query: final(self).query,
                selected_index: 0,
                all_files: final(self).all_files,
                ..*old(self)
            }),
    {
        self.mode = PaletteMode::FileSearch;
        self.query = String::new();
        self.selected_index = 0;
        self.is_open = true;
        if let Some(f) = files {
            self.all_files = f;
        }
    }

    /// Opens the palette on the commands with an empty query.
    pub fn open_command_palette(&mut self)
        ensures
            final(self).is_open,
            final(self).mode == PaletteMode::CommandPalette,
            final(self).query@.len() == 0,
            final(self).selected_index == 0,
            *final(self) == (CommandPalette {
                is_open: true,
                mode: PaletteMode::CommandPalette,
                query: final(self).query,
                selected_index: 0,
                ..*old(self)
            }),
    {
        self.mode = PaletteMode::CommandPalette;
        self.query = String::new();
        self.selected_index = 0;
        self.is_open = true;
    }

    /// Closes the palette.
    pub fn close(&mut self)
        ensures
            *final(self) == (CommandPalette { is_open: false, ..*old(self) }),
    {
        self.is_open = false;
    }

    /// The items the current mode searches.
    pub open spec fn source(&self) -> Seq<PaletteItem> {
        match self.mode {
            PaletteMode::FileSearch => self.all_files@,
            PaletteMode::CommandPalette => self.all_commands@,
        }
    }

    /// The items to list for the current query, best match first, at most 30.
    pub fn filtered_items(&self) -> (res: Vec<PaletteItem>)
        requires
            all_scannable(self.query@, self.source()),
        ensures
            listed(self.query@, self.source(), res@),
    {
        match self.mode {
            PaletteMode::FileSearch => filter_items(self.query.as_str(), &self.all_files),
            PaletteMode::CommandPalette => filter_items(self.query.as_str(), &self.all_commands),
        }
    }

    /// Lists the items like `filtered_items`, on every input: `None` where
    /// scanning some item's text would fail (see `fuzzy_match_checked`).
    pub fn filtered_items_checked(&self) -> (res: Option<Vec<PaletteItem>>)
        ensures
            res is Some <==> all_scannable(self.query@, self.source()),
            res matches Some(v) ==> listed(self.query@, self.source(), v@),
    {
        let ok = match self.mode {
            PaletteMode::FileSearch => items_scannable(self.query.as_str(), &self.all_files),
            PaletteMode::CommandPalette => items_scannable(self.query.as_str(), &self.all_commands),
        };
        if ok {
            Some(self.filtered_items())
        } else {
            None
        }
    }

    /// The hint shown in the empty search field.
    pub fn placeholder(&self) -> (res: &'static str)
        ensures
            self.mode == PaletteMode::FileSearch ==> res@ == "Search files by name (e.g. main.rs, Cargo.toml)..."@,
            self.mode == PaletteMode::CommandPalette ==> res@ == "Type a command to execute..."@,
    {
        match self.mode {
            PaletteMode::FileSearch => "Search files by name (e.g. main.rs, Cargo.toml)...",
            PaletteMode::CommandPalette => "Type a command to execute...",
        }
    }

    /// The row shown as selected among `count` listed items: the selected
    /// index, held to the last row (row 0 when nothing is listed).
    pub fn selected_row(&self, count: usize) -> (res: usize)
        ensures
            res == (if count == 0 {
                0
            } else if self.selected_index < count {
                self.selected_index as int
            } else {
                count - 1
            }),
    {
        let last = if count == 0 { 0 } else { count - 1 };
        if self.selected_index < last { self.selected_index } else { last }
    }

    /// Picks an item: the palette closes, and the result says what to do.
    pub fn execute_item(&mut self, item: &PaletteItem) -> (res: PaletteEffect)
        ensures
            *final(self) == (CommandPalette { is_open: false, ..*old(self) }),
            match *item {
                PaletteItem::File { path, file_name, .. } => res matches PaletteEffect::OpenFile {
                    path: p,
                    title,
                } && p == path && title == file_name,
                PaletteItem::Command { command, .. } => res matches PaletteEffect::RunCommand {
                    command: c,
                } && c == command,
            },
    {
        self.is_open = false;
        match item {
            PaletteItem::File { path, file_name, .. } => PaletteEffect::OpenFile {
                path: path.clone(),
                title: file_name.clone(),
            },
            PaletteItem::Command { command, .. } => PaletteEffect::RunCommand { command: command.clone() },
        }
    }

    /// The quick-open entry for a file found by the walk: its full path, its
    /// name, and its folder relative to the project root, which is the parent
    /// of `relative_path` (the file's path below the root) once `\` has become
    /// `/`; empty when there is none. For a clean relative path (see
    /// `clean_relative`) the folder is the part before the last `/`.
    pub fn file_item(full_path: &str, relative_path: &str, file_name: &str) -> (res: PaletteItem)
        ensures
            res matches PaletteItem::File { path, file_name: n, dir } && path@ == full_path@ && n@
                == file_name@ && (clean_relative(replace_char(relative_path@, '\\', '/')) ==> dir@
                == before_last_slash(replace_char(relative_path@, '\\', '/'))),
    {
        let rv = chars_of(relative_path);
        let norm = string_of(&replace_char_exec(&rv, '\\', '/'));
        let dir = match path_parent(norm.as_str()) {
            Some(d) => d,
            None => String::new(),
        };
        PaletteItem::File { path: owned(full_path), file_name: owned(file_name), dir }
    }

    /// Whether the file walk descends into a folder of this name: build
    /// output, version-control and dependency folders are skipped.
    pub fn should_descend(dir_name: &str) -> (res: bool)
        ensures
            res == !(dir_name@ == "target"@ || dir_name@ == ".git"@ || dir_name@ == "node_modules"@
                || dir_name@ == ".nucleus"@),
    {
        !(same_text(dir_name, "target") || same_text(dir_name, ".git") || same_text(dir_name, "node_modules")
            || same_text(dir_name, ".nucleus"))
    }
}

/// A command entry.
fn command_item(category: &str, title: &str, command: &str, shortcut: Option<&str>) -> (res: PaletteItem)
    ensures
        res matches PaletteItem::Command { title: t, category: c, command: m, shortcut: s } && t@
            == title@ && c@ == category@ && m@ == command@ && (match shortcut {
            Some(x) => s matches Some(y) && y@ == x@,
            None => s is None,
        }),
{
    let s = match shortcut {
        Some(x) => Some(owned(x)),
        None => None,
    };
    PaletteItem::Command { title: owned(title), category: owned(category), command: owned(command), shortcut: s }
}

/// An order that ranks the scores lists every index.
proof fn lemma_order_covers(scores: Seq<int>, order: Seq<int>, i: int)
    requires
        stable_descending(scores, order),
        0 <= i < scores.len(),
    ensures
        exists|k: int| 0 <= k < order.len() && order[k] == i,
{
    assert(order.no_duplicates()) by {
        assert forall|k: int, l: int| 0 <= k < order.len() && 0 <= l < order.len() && k != l implies order[k] != order[l] by {
            if k < l {
                assert(scores[order[k]] > scores[order[l]] || (scores[order[k]] == scores[order[l]] && order[k] < order[l]));
            } else {
                assert(scores[order[l]] > scores[order[k]] || (scores[order[l]] == scores[order[k]] && order[l] < order[k]));
            }
        }
    }
    order.unique_seq_to_set();
    let range = vstd::set_lib::set_int_range(0, scores.len() as int);
    vstd::set_lib::lemma_int_range(0, scores.len() as int);
    assert(order.to_set().subset_of(range)) by {
        assert forall|x: int| order.to_set().contains(x) implies range.contains(x) by {
            let k = choose|k: int| 0 <= k < order.len() && order[k] == x;
        }
    }
    vstd::set_lib::lemma_subset_equality(order.to_set(), range);
    assert(range.contains(i));
    assert(order.to_set().contains(i));
}

/// The ranking is determined by the scores: two orders that both list the
/// indices by descending score, ties in index order, are the same order.
pub proof fn law_ranking_is_unique(scores: Seq<int>, o1: Seq<int>, o2: Seq<int>)
    requires
        stable_descending(scores, o1),
        stable_descending(scores, o2),
    ensures
        o1 == o2,
{
    assert forall|k: int| 0 <= k < o1.len() implies o1[k] == o2[k] by {
        lemma_ranking_agrees_at(scores, o1, o2, k);
    }
    assert(o1 =~= o2);
}

proof fn lemma_ranking_agrees_at(scores: Seq<int>, o1: Seq<int>, o2: Seq<int>, k: int)
    requires
        stable_descending(scores, o1),
        stable_descending(scores, o2),
        0 <= k < o1.len(),
    ensures
        o1[k] == o2[k],
    decreases k,
{
    assert forall|j: int| 0 <= j < k implies o1[j] == o2[j] by {
        lemma_ranking_agrees_at(scores, o1, o2, j);
    }
    let a = o1[k];
    let b = o2[k];
    if a != b {
        lemma_order_covers(scores, o1, b);
        lemma_order_covers(scores, o2, a);
        let k1 = choose|x: int| 0 <= x < o1.len() && o1[x] == b;
        let k2 = choose|x: int| 0 <= x < o2.len() && o2[x] == a;
        if k1 < k {
            assert(o2[k1] == b);
            assert(scores[o2[k1]] > scores[o2[k]] || (scores[o2[k1]] == scores[o2[k]] && o2[k1] < o2[k]));
        }
        if k2 < k {
            assert(o1[k2] == a);
            assert(scores[o1[k2]] > scores[o1[k]] || (scores[o1[k2]] == scores[o1[k]] && o1[k2] < o1[k]));
        }
        assert(k1 > k);
        assert(k2 > k);
        assert(scores[a] > scores[b] || (scores[a] == scores[b] && a < b));
        assert(scores[b] > scores[a] || (scores[b] == scores[a] && b < a));
    }
}

} // verus!
