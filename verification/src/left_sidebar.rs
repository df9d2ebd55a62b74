//! The left sidebar's own state: which panel it shows, the search form with
//! its results, and the commit message (the file tree lives in the UI layer).
use vstd::prelude::*;

use crate::git_status::{commit_command, panel_matches};
use crate::text::{chars_of, concat_chars, decimal, decimal_chars, owned, string_of, trim_text, trimmed};

verus! {

/// One line of a file that matches the project search.
pub struct SearchMatch {
    pub line_number: usize,
    pub line_text: String,
}

/// The matches of the project search in one file.
pub struct SearchResult {
    pub file_path: String,
    pub relative_path: String,
    pub matches: Vec<SearchMatch>,
}

/// The number of matches over all the files of a search.
pub open spec fn total_matches(results: Seq<SearchResult>) -> nat
    decreases results.len(),
{
    if results.len() == 0 {
        0
    } else {
        total_matches(results.drop_last()) + results.last().matches@.len()
    }
}

/// A row of the search results list.
pub enum SearchRow {
    /// The heading of one file's matches: its root-relative path and the number of matches.
    File { relative_path: String, match_count: usize },
    /// One match: the file it is in (opened by a click), its line number, and
    /// the line's text without surrounding whitespace.
    Match { file_path: String, line_number: usize, line_text: String },
}

/// What a result row shows: `Ok((relative path, match count))` for a file
/// heading, `Err((file path, line number, trimmed text))` for a match.
pub open spec fn row_view(row: SearchRow) -> Result<(Seq<char>, int), (Seq<char>, int, Seq<char>)> {
    match row {
        SearchRow::File { relative_path, match_count } => Ok((relative_path@, match_count as int)),
        SearchRow::Match { file_path, line_number, line_text } => Err(
            (file_path@, line_number as int, line_text@),
        ),
    }
}

/// The rows of one file's results: its heading, then one row per match, in order.
pub open spec fn file_rows(r: SearchResult) -> Seq<Result<(Seq<char>, int), (Seq<char>, int, Seq<char>)>> {
    seq![Ok((r.relative_path@, r.matches@.len() as int))] + Seq::new(
        r.matches@.len(),
        |k: int| Err((r.file_path@, r.matches@[k].line_number as int, trimmed(r.matches@[k].line_text@))),
    )
}

/// The rows of the results list: the rows of each file, file after file.
pub open spec fn result_rows(results: Seq<SearchResult>) -> Seq<Result<(Seq<char>, int), (Seq<char>, int, Seq<char>)>>
    decreases results.len(),
{
    if results.len() == 0 {
        seq![]
    } else {
        result_rows(results.drop_last()) + file_rows(results.last())
    }
}

/// The rows of the search results list (see `result_rows`): for each file, in
/// order, a heading with its path and match count, then each match with its
/// line number and its text without surrounding whitespace.
pub fn search_rows(results: &Vec<SearchResult>) -> (rows: Vec<SearchRow>)
    ensures
        rows@.map_values(|r: SearchRow| row_view(r)) == result_rows(results@),
{
    let mut rows: Vec<SearchRow> = Vec::new();
    let mut i: usize = 0;
    while i < results.len()
        invariant
            i <= results@.len(),
            rows@.map_values(|r: SearchRow| row_view(r)) == result_rows(results@.take(i as int)),
        decreases results@.len() - i,
    {
        let r = &results[i];
        let ghost before = rows@.map_values(|r: SearchRow| row_view(r));
        rows.push(SearchRow::File { relative_path: owned(r.relative_path.as_str()), match_count: r.matches.len() });
        assert(rows@.map_values(|r: SearchRow| row_view(r)) =~= before + seq![
            Ok((r.relative_path@, r.matches@.len() as int)),
        ]);
        let mut k: usize = 0;
        while k < r.matches.len()
            invariant
                k <= r.matches@.len(),
                rows@.map_values(|x: SearchRow| row_view(x)) == before + file_rows(*r).take(k + 1),
            decreases r.matches@.len() - k,
        {
            let m = &r.matches[k];
            let ghost mid = rows@.map_values(|x: SearchRow| row_view(x));
            rows.push(SearchRow::Match {
                file_path: owned(r.file_path.as_str()),
                line_number: m.line_number,
                line_text: trim_text(m.line_text.as_str()),
            });
            assert(rows@.map_values(|x: SearchRow| row_view(x)) =~= mid.push(file_rows(*r)[k + 1]));
            assert(file_rows(*r).take(k + 2) =~= file_rows(*r).take(k + 1).push(file_rows(*r)[k + 1]));
            k = k + 1;
        }
        assert(file_rows(*r).take(k + 1) =~= file_rows(*r));
        assert(results@.take(i + 1).drop_last() =~= results@.take(i as int));
        i = i + 1;
    }
    assert(results@.take(i as int) =~= results@);
    rows
}

/// What the left sidebar shows below its title.
pub enum SidebarContent {
    /// The file tree.
    Explorer,
    /// The search panel.
    Search,
    /// The plugin sidebar item at this index of the registered items.
    Plugin { index: usize },
    /// A note that no sidebar has the active panel's id.
    NotFound { message: String },
}

/// Whether the plugin sidebar item `item_id` serves the panel `active_panel`:
/// the same id, with `git` and `git_sidebar` naming the same panel.
pub open spec fn serves_panel(active_panel: Seq<char>, item_id: Seq<char>) -> bool {
    item_id == active_panel || (active_panel == "git"@ && item_id == "git_sidebar"@) || (active_panel
        == "git_sidebar"@ && item_id == "git"@)
}

/// What the sidebar shows for the active panel: the file tree for `explorer`,
/// the search panel for `search`, else the first registered plugin item
/// (`item_ids` are their ids, in order) that serves the panel, or the note
/// `Sidebar '<id>' not found`.
pub fn sidebar_content(active_panel: &str, item_ids: &Vec<String>) -> (res: SidebarContent)
    ensures
        active_panel@ == "explorer"@ ==> res is Explorer,
        active_panel@ != "explorer"@ && active_panel@ == "search"@ ==> res is Search,
        active_panel@ != "explorer"@ && active_panel@ != "search"@ ==> match res {
            SidebarContent::Plugin { index } => index < item_ids@.len() && serves_panel(
                active_panel@,
                item_ids@[index as int]@,
            ) && forall|j: int| 0 <= j < index ==> !serves_panel(active_panel@, #[trigger] item_ids@[j]@),
            SidebarContent::NotFound { message } => message@ == "Sidebar '"@ + active_panel@ + "' not found"@
                && forall|j: int| 0 <= j < item_ids@.len() ==> !serves_panel(active_panel@, #[trigger] item_ids@[j]@),
            _ => false,
        },
{
    if crate::text::same_text(active_panel, "explorer") {
        return SidebarContent::Explorer;
    }
    if crate::text::same_text(active_panel, "search") {
        return SidebarContent::Search;
    }
    let mut i: usize = 0;
    while i < item_ids.len()
        invariant
            i <= item_ids@.len(),
            active_panel@ != "explorer"@,
            active_panel@ != "search"@,
            forall|j: int| 0 <= j < i ==> !serves_panel(active_panel@, #[trigger] item_ids@[j]@),
        decreases item_ids@.len() - i,
    {
        if panel_matches(active_panel, item_ids[i].as_str()) {
            return SidebarContent::Plugin { index: i };
        }
        i = i + 1;
    }
    let a = chars_of("Sidebar '");
    let b = chars_of(active_panel);
    let c = chars_of("' not found");
    let ab = concat_chars(&a, &b);
    let abc = concat_chars(&ab, &c);
    SidebarContent::NotFound { message: string_of(&abc) }
}

/// The left sidebar.
pub struct LeftSidebar {
    pub root_path: Option<String>,
    pub active_panel: String,
    pub commit_message: String,
    pub search_query: String,
    pub replace_query: String,
    pub case_sensitive: bool,
    pub search_results: Vec<SearchResult>,
}

impl LeftSidebar {
    /// A sidebar on the explorer panel, with an empty search form and commit message.
    pub fn new(root_path: Option<String>) -> (res: Self)
        ensures
            res.root_path == root_path,
            res.active_panel@ == "explorer"@,
            res.commit_message@.len() == 0,
            res.search_query@.len() == 0,
            res.replace_query@.len() == 0,
            !res.case_sensitive,
            res.search_results@.len() == 0,
    {
        LeftSidebar {
            root_path,
            active_panel: owned("explorer"),
            commit_message: String::new(),
            search_query: String::new(),
            replace_query: String::new(),
            case_sensitive: false,
            search_results: Vec::new(),
        }
    }

    /// Shows the panel with the given id.
    pub fn set_active_panel(&mut self, id: String)
        ensures
            *final(self) == (LeftSidebar { active_panel: id, ..*old(self) }),
    {
        self.active_panel = id;
    }

    /// Sets the project folder.
    pub fn set_root(&mut self, path: Option<String>)
        ensures
            *final(self) == (LeftSidebar { root_path: path, ..*old(self) }),
    {
        self.root_path = path;
    }

    /// Flips case-sensitive search; the search then runs again.
    pub fn toggle_case_sensitive(&mut self)
        ensures
            *final(self) == (LeftSidebar { case_sensitive: !old(self).case_sensitive, ..*old(self) }),
    {
        self.case_sensitive = !self.case_sensitive;
    }

    /// Running a project search: gives the folder to search, the search text
    /// and whether case matters, or nothing when no project folder is open.
    pub fn execute_search(&self) -> (res: Option<(String, String, bool)>)
        ensures
            self.root_path is None ==> res is None,
            self.root_path is Some ==> (res matches Some((r, q, c)) && r@ == self.root_path->0@
                && q@ == self.search_query@ && c == self.case_sensitive),
    {
        match &self.root_path {
            Some(root) => Some((
                owned(root.as_str()),
                owned(self.search_query.as_str()),
                self.case_sensitive,
            )),
            None => None,
        }
    }

    /// Shows the results of the search that `execute_search` asked for.
    pub fn set_search_results(&mut self, results: Vec<SearchResult>)
        ensures
            *final(self) == (LeftSidebar { search_results: results, ..*old(self) }),
    {
        self.search_results = results;
    }

    /// The line above the search results: `No search results`, or the number
    /// of matches and of files, as in `3 results in 2 files`.
    pub fn search_summary(&self) -> (res: String)
        requires
            total_matches(self.search_results@) <= usize::MAX,
        ensures
            self.search_results@.len() == 0 ==> res@ == "No search results"@,
            self.search_results@.len() > 0 ==> res@ == decimal(total_matches(self.search_results@))
                + " results in "@ + decimal(self.search_results@.len()) + " files"@,
    {
        if self.search_results.len() == 0 {
            return owned("No search results");
        }
        let mut total: usize = 0;
        let mut i: usize = 0;
        while i < self.search_results.len()
            invariant
                i <= self.search_results@.len(),
                total == total_matches(self.search_results@.take(i as int)),
                total_matches(self.search_results@) <= usize::MAX,
            decreases self.search_results@.len() - i,
        {
            assert(self.search_results@.take(i + 1).drop_last() =~= self.search_results@.take(i as int));
            proof {
                lemma_total_matches_prefix(self.search_results@, i as int + 1);
            }
            total = total + self.search_results[i].matches.len();
            i = i + 1;
        }
        assert(self.search_results@.take(i as int) =~= self.search_results@);
        let a = decimal_chars(total);
        let b = chars_of(" results in ");
        let c = decimal_chars(self.search_results.len());
        let d = chars_of(" files");
        let ab = concat_chars(&a, &b);
        let abc = concat_chars(&ab, &c);
        let abcd = concat_chars(&abc, &d);
        string_of(&abcd)
    }

    /// "Replace all": gives the search text and its replacement, to be
    /// replaced in every file the last search found and followed by a new
    /// search, or nothing when the search text is empty.
    pub fn execute_replace_all(&self) -> (res: Option<(String, String)>)
        ensures
            self.search_query@.len() == 0 ==> res is None,
            self.search_query@.len() > 0 ==> (res matches Some((f, r)) && f@ == self.search_query@
                && r@ == self.replace_query@),
    {
        if chars_of(self.search_query.as_str()).len() > 0 {
            Some((owned(self.search_query.as_str()), owned(self.replace_query.as_str())))
        } else {
            None
        }
    }

    /// The commit button: gives the commit command for the message (see
    /// `commit_command`) and empties the message.
    pub fn commit(&mut self) -> (res: String)
        ensures
            old(self).commit_message@.len() == 0 ==> res@ == "git.commit:"@ + "Update"@,
            old(self).commit_message@.len() > 0 ==> res@ == "git.commit:"@ + old(self).commit_message@,
            final(self).commit_message@.len() == 0,
            *final(self) == (LeftSidebar { commit_message: final(self).commit_message, ..*old(self) }),
    {
        let cmd = commit_command(self.commit_message.as_str());
        self.commit_message = String::new();
        cmd
    }
}

/// The matches of a prefix of the results never outnumber those of all of them.
proof fn lemma_total_matches_prefix(results: Seq<SearchResult>, n: int)
    requires
        0 <= n <= results.len(),
    ensures
        total_matches(results.take(n)) <= total_matches(results),
    decreases results.len() - n,
{
    if n < results.len() {
        lemma_total_matches_prefix(results, n + 1);
        assert(results.take(n + 1).drop_last() =~= results.take(n));
    } else {
        assert(results.take(n) =~= results);
    }
}

} // verus!
