//! Git status in the file tree and the source-control panel: which status a
//! file or folder shows, how it is drawn, and the commands its buttons send.
use vstd::prelude::*;

use crate::paths::{after_last_slash, path_file_name, plain_name, portable_path};
use crate::text::{
    owned, chars_equal, chars_of, concat_chars, has_prefix, has_suffix, last_occurrence, occurs_at,
    replace_char, replace_char_exec, slice_chars, starts_with, ends_with, string_of, text_view,
};

verus! {

/// One changed file reported by the Git integration.
pub struct GitNode {
    /// The file's path, when the report gives one.
    pub path: Option<String>,
    /// Its status letters (`M`, `A`, `D`, `??`, ...), when given.
    pub status: Option<String>,
}

/// How a Git status is drawn.
#[derive(Clone, Copy, Debug, PartialEq, Eq, Structural)]
pub enum GitStatusKind {
    /// Yellow: modified (`M`, `MM`).
    Modified,
    /// Green: new (`U`, `??`, `A`).
    Added,
    /// Red: deleted (`D`).
    Deleted,
    /// No status colour.
    Unchanged,
}

/// `s` with its trailing `c`s removed.
pub open spec fn trim_end_char(s: Seq<char>, c: char) -> Seq<char>
    decreases s.len(),
{
    if s.len() > 0 && s.last() == c {
        trim_end_char(s.drop_last(), c)
    } else {
        s
    }
}

/// `s` with its leading `c`s removed.
pub open spec fn trim_start_char(s: Seq<char>, c: char) -> Seq<char>
    decreases s.len(),
{
    if s.len() > 0 && s[0] == c {
        trim_start_char(s.drop_first(), c)
    } else {
        s
    }
}

/// `s` with the repeated prefix `p` (non-empty) removed.
pub open spec fn trim_start_text(s: Seq<char>, p: Seq<char>) -> Seq<char>
    decreases s.len(),
{
    if p.len() > 0 && starts_with(s, p) {
        trim_start_text(s.skip(p.len() as int), p)
    } else {
        s
    }
}

/// A path with `\` turned into `/`.
pub open spec fn normalize(p: Seq<char>) -> Seq<char> {
    replace_char(p, '\\', '/')
}

/// `s[a..b]` is one of the `/`-separated parts of `s`, and is not empty.
pub open spec fn is_part(s: Seq<char>, a: int, b: int) -> bool {
    &&& 0 <= a < b <= s.len()
    &&& a == 0 || s[a - 1] == '/'
    &&& b == s.len() || s[b] == '/'
    &&& forall|k: int| a <= k < b ==> s[k] != '/'
}

/// A drive name that does not count as a path part.
pub open spec fn is_drive(part: Seq<char>) -> bool {
    part == "A:"@ || part == "C:"@ || part == "D:"@
}

/// The last position at which `p` occurs in `s`.
pub open spec fn last_position(s: Seq<char>, p: Seq<char>) -> int {
    choose|i: int| occurs_at(s, p, i) && forall|j: int| i < j ==> !occurs_at(s, p, j)
}

/// The folder `tf` matches the Git path `tg` through the part `tf[a..b]`:
/// from the last occurrence of that part on, `tf` followed by `/` starts `tg`.
pub open spec fn part_hit(tf: Seq<char>, tg: Seq<char>, a: int, b: int) -> bool {
    &&& is_part(tf, a, b)
    &&& !is_drive(tf.subrange(a, b))
    &&& starts_with(tg, tf.skip(last_position(tf, tf.subrange(a, b))) + seq!['/'])
}

/// Whether the file or folder at `file_path` corresponds to the Git path
/// `git_node_path`, with `\` read as `/`. A file matches an equal path, a path
/// that ends with `/` and the other one, or an equal path once leading `./`
/// are dropped. A folder matches a Git path that starts with it, or one that
/// starts with some part of it (a drive name aside) together with what
/// follows that part in the folder's path, and a `/`.
pub open spec fn git_path_matches(file_path: Seq<char>, git_node_path: Seq<char>, is_dir: bool) -> bool {
    let f = normalize(file_path);
    let g = normalize(git_node_path);
    if is_dir {
        let tf = trim_end_char(f, '/');
        let tg = trim_start_char(g, '/');
        starts_with(tg, tf) || exists|a: int, b: int| #[trigger] part_hit(tf, tg, a, b)
    } else {
        f == g || ends_with(f, seq!['/'] + trim_start_char(g, '/')) || ends_with(
            g,
            seq!['/'] + trim_start_char(f, '/'),
        ) || trim_start_text(f, seq!['.', '/']) == trim_start_text(g, seq!['.', '/'])
    }
}

fn trim_end_char_exec(s: &Vec<char>, c: char) -> (res: Vec<char>)
    ensures
        res@ == trim_end_char(s@, c),
{
    let mut n: usize = s.len();
    assert(s@.take(n as int) =~= s@);
    while n > 0 && s[n - 1] == c
        invariant
            n <= s@.len(),
            trim_end_char(s@.take(n as int), c) == trim_end_char(s@, c),
        decreases n,
    {
        assert(s@.take(n as int).drop_last() =~= s@.take(n - 1));
        n = n - 1;
    }
    slice_chars(s, 0, n)
}

fn trim_start_char_exec(s: &Vec<char>, c: char) -> (res: Vec<char>)
    ensures
        res@ == trim_start_char(s@, c),
{
    let mut n: usize = 0;
    assert(s@.skip(0) =~= s@);
    while n < s.len() && s[n] == c
        invariant
            n <= s@.len(),
            trim_start_char(s@.skip(n as int), c) == trim_start_char(s@, c),
        decreases s@.len() - n,
    {
        assert(s@.skip(n as int).drop_first() =~= s@.skip(n + 1));
        n = n + 1;
    }
    assert(s@.skip(n as int) =~= s@.subrange(n as int, s@.len() as int));
    slice_chars(s, n, s.len())
}

fn trim_start_text_exec(s: &Vec<char>, p: &Vec<char>) -> (res: Vec<char>)
    requires
        p@.len() > 0,
    ensures
        res@ == trim_start_text(s@, p@),
{
    let mut cur = slice_chars(s, 0, s.len());
    assert(cur@ =~= s@);
    while has_prefix(&cur, p)
        invariant
            p@.len() > 0,
            trim_start_text(cur@, p@) == trim_start_text(s@, p@),
        decreases cur@.len(),
    {
        let next = slice_chars(&cur, p.len(), cur.len());
        assert(next@ =~= cur@.skip(p@.len() as int));
        cur = next;
    }
    cur
}

/// Whether the file or folder at `file_path` corresponds to the Git path
/// `git_node_path` (see `git_path_matches`).
pub fn match_git_path(file_path: &str, git_node_path: &str, is_dir: bool) -> (res: bool)
    ensures
        res == git_path_matches(file_path@, git_node_path@, is_dir),
{
    let fv = chars_of(file_path);
    let gv = chars_of(git_node_path);
    let f = replace_char_exec(&fv, '\\', '/');
    let g = replace_char_exec(&gv, '\\', '/');
    let mut slash: Vec<char> = Vec::new();
    slash.push('/');
    assert(slash@ =~= seq!['/']);
    if is_dir {
        let tf = trim_end_char_exec(&f, '/');
        let tg = trim_start_char_exec(&g, '/');
        if has_prefix(&tg, &tf) {
            return true;
        }
        let r = any_part_hit(&tf, &tg);
        r
    } else {
        if chars_equal(&f, &g) {
            return true;
        }
        let tg = trim_start_char_exec(&g, '/');
        let tf = trim_start_char_exec(&f, '/');
        let sg = concat_chars(&slash, &tg);
        let sf = concat_chars(&slash, &tf);
        if has_suffix(&f, &sg) || has_suffix(&g, &sf) {
            return true;
        }
        let mut dot_slash: Vec<char> = Vec::new();
        dot_slash.push('.');
        dot_slash.push('/');
        assert(dot_slash@ =~= seq!['.', '/']);
        let a = trim_start_text_exec(&f, &dot_slash);
        let b = trim_start_text_exec(&g, &dot_slash);
        chars_equal(&a, &b)
    }
}

/// Whether some part of `tf` gives a hit on `tg` (see `part_hit`).
fn any_part_hit(tf: &Vec<char>, tg: &Vec<char>) -> (res: bool)
    ensures
        res == exists|a: int, b: int| #[trigger] part_hit(tf@, tg@, a, b),
{
    let mut slash: Vec<char> = Vec::new();
    slash.push('/');
    assert(slash@ =~= seq!['/']);
    let mut a: usize = 0;
    while a < tf.len()
        invariant
            a <= tf@.len(),
            slash@ == seq!['/'],
            a == 0 || tf@[a - 1] == '/',
            forall|x: int, y: int| x < a ==> !#[trigger] part_hit(tf@, tg@, x, y),
        decreases tf@.len() - a,
    {
        let mut b: usize = a;
        while b < tf.len() && tf[b] != '/'
            invariant
                a <= b <= tf@.len(),
                forall|k: int| a <= k < b ==> tf@[k] != '/',
            decreases tf@.len() - b,
        {
            b = b + 1;
        }
        if a < b {
            let part = slice_chars(tf, a, b);
            let drive = chars_equal(&part, &chars_of("A:")) || chars_equal(&part, &chars_of("C:"))
                || chars_equal(&part, &chars_of("D:"));
            if !drive {
                match last_occurrence(tf, &part) {
                    Some(pos) => {
                        assert(pos as int == last_position(tf@, part@)) by {
                            let c = last_position(tf@, part@);
                            assert(occurs_at(tf@, part@, c) && forall|j: int| c < j ==> !occurs_at(tf@, part@, j));
                        }
                        let suffix = slice_chars(tf, pos, tf.len());
                        assert(suffix@ =~= tf@.skip(pos as int));
                        let probe = concat_chars(&suffix, &slash);
                        if has_prefix(tg, &probe) {
                            assert(part_hit(tf@, tg@, a as int, b as int));
                            return true;
                        }
                    },
                    None => {
                        assert(occurs_at(tf@, part@, a as int));
                    },
                }
            }
        }
        assert forall|x: int, y: int| x < b + 1 implies !#[trigger] part_hit(tf@, tg@, x, y) by {
            if x >= a && part_hit(tf@, tg@, x, y) {
                if x > a {
                    assert(tf@[x - 1] == '/');
                }
                if y < b {
                    assert(tf@[y] == '/');
                }
                if y > b {
                    assert(tf@[b as int] == '/');
                }
            }
        }
        if b == tf.len() {
            assert forall|x: int, y: int| !#[trigger] part_hit(tf@, tg@, x, y) by {
                if x >= tf@.len() && part_hit(tf@, tg@, x, y) {
                }
            }
            return false;
        }
        a = b + 1;
    }
    assert forall|x: int, y: int| !#[trigger] part_hit(tf@, tg@, x, y) by {
        if x >= a && part_hit(tf@, tg@, x, y) {
        }
    }
    false
}

/// Whether a node's path corresponds to the file or folder at `path` (see
/// `git_path_matches`).
pub open spec fn node_hits(node: GitNode, path: Seq<char>, is_dir: bool) -> bool {
    match node.path {
        Some(np) => git_path_matches(path, np@, is_dir),
        None => false,
    }
}

/// The status the nodes from index `i` on give the file or folder at `path`:
/// the first node that corresponds to it decides; a file takes that node's
/// status, a folder with a changed file inside shows `M`.
pub open spec fn status_from(nodes: Seq<GitNode>, path: Seq<char>, is_dir: bool, i: int) -> Option<Seq<char>>
    decreases nodes.len() - i,
{
    if i < 0 || i >= nodes.len() {
        None
    } else if node_hits(nodes[i], path, is_dir) {
        if is_dir {
            Some(seq!['M'])
        } else {
            match nodes[i].status {
                Some(s) => Some(s@),
                None => None,
            }
        }
    } else {
        status_from(nodes, path, is_dir, i + 1)
    }
}

/// The status shown for the file or folder at `path`: that from the staged
/// nodes if they give one, else that from the changed nodes.
pub open spec fn lookup_status(
    staged: Option<Seq<GitNode>>,
    changes: Option<Seq<GitNode>>,
    path: Seq<char>,
    is_dir: bool,
) -> Option<Seq<char>> {
    let from_staged = match staged {
        Some(s) => status_from(s, path, is_dir, 0),
        None => None,
    };
    if from_staged is Some {
        from_staged
    } else {
        match changes {
            Some(c) => status_from(c, path, is_dir, 0),
            None => None,
        }
    }
}

/// The contents of an optional node list.
pub open spec fn nodes_view(o: Option<&Vec<GitNode>>) -> Option<Seq<GitNode>> {
    match o {
        Some(v) => Some(v@),
        None => None,
    }
}

fn status_in(nodes: &Vec<GitNode>, path: &str, is_dir: bool) -> (res: Option<String>)
    ensures
        match res {
            Some(s) => status_from(nodes@, path@, is_dir, 0) == Some(s@),
            None => status_from(nodes@, path@, is_dir, 0) is None,
        },
{
    let mut i: usize = 0;
    while i < nodes.len()
        invariant
            i <= nodes@.len(),
            status_from(nodes@, path@, is_dir, i as int) == status_from(nodes@, path@, is_dir, 0),
        decreases nodes@.len() - i,
    {
        match &nodes[i].path {
            Some(np) => {
                if match_git_path(path, np.as_str(), is_dir) {
                    if is_dir {
                        let mut m: Vec<char> = Vec::new();
                        m.push('M');
                        assert(m@ =~= seq!['M']);
                        return Some(string_of(&m));
                    }
                    return match &nodes[i].status {
                        Some(s) => Some(s.clone()),
                        None => None,
                    };
                }
            },
            None => {},
        }
        i = i + 1;
    }
    None
}

/// The status shown for the file or folder at `path_str` (see `lookup_status`).
/// `staged` and `changes` are the source-control report's node lists, when present.
pub fn lookup_git_status(
    staged: Option<&Vec<GitNode>>,
    changes: Option<&Vec<GitNode>>,
    path_str: &str,
    is_dir: bool,
) -> (res: Option<String>)
    ensures
        match res {
            Some(s) => lookup_status(
                nodes_view(staged),
                nodes_view(changes),
                path_str@,
                is_dir,
            ) == Some(s@),
            None => lookup_status(
                nodes_view(staged),
                nodes_view(changes),
                path_str@,
                is_dir,
            ) is None,
        },
{
    if let Some(s) = staged {
        if let Some(found) = status_in(s, path_str, is_dir) {
            return Some(found);
        }
    }
    if let Some(c) = changes {
        if let Some(found) = status_in(c, path_str, is_dir) {
            return Some(found);
        }
    }
    None
}

/// How a status is drawn.
pub open spec fn kind_of(status: Option<Seq<char>>) -> GitStatusKind {
    match status {
        Some(s) => if s == "M"@ || s == "MM"@ {
            GitStatusKind::Modified
        } else if s == "U"@ || s == "??"@ || s == "A"@ {
            GitStatusKind::Added
        } else if s == "D"@ {
            GitStatusKind::Deleted
        } else {
            GitStatusKind::Unchanged
        },
        None => GitStatusKind::Unchanged,
    }
}

/// How a status is drawn: modified, new, deleted, or without colour.
pub fn status_kind(status: Option<&str>) -> (res: GitStatusKind)
    ensures
        res == kind_of(text_view(status)),
{
    match status {
        Some(s) => {
            if crate::text::same_text(s, "M") || crate::text::same_text(s, "MM") {
                GitStatusKind::Modified
            } else if crate::text::same_text(s, "U") || crate::text::same_text(s, "??") || crate::text::same_text(s, "A") {
                GitStatusKind::Added
            } else if crate::text::same_text(s, "D") {
                GitStatusKind::Deleted
            } else {
                GitStatusKind::Unchanged
            }
        },
        None => GitStatusKind::Unchanged,
    }
}

/// The badge drawn beside a tree entry: a dot for a folder, the status
/// letter (`M`, `U` or `D`) for a file, nothing without a status colour.
pub fn status_badge(kind: GitStatusKind, is_folder: bool) -> (res: Option<&'static str>)
    ensures
        kind == GitStatusKind::Unchanged ==> res is None,
        kind != GitStatusKind::Unchanged && is_folder ==> (res matches Some(b) && b@ == "●"@),
        kind == GitStatusKind::Modified && !is_folder ==> (res matches Some(b) && b@ == "M"@),
        kind == GitStatusKind::Added && !is_folder ==> (res matches Some(b) && b@ == "U"@),
        kind == GitStatusKind::Deleted && !is_folder ==> (res matches Some(b) && b@ == "D"@),
{
    match kind {
        GitStatusKind::Unchanged => None,
        GitStatusKind::Modified => if is_folder { Some("●") } else { Some("M") },
        GitStatusKind::Added => if is_folder { Some("●") } else { Some("U") },
        GitStatusKind::Deleted => if is_folder { Some("●") } else { Some("D") },
    }
}

/// `prefix` followed by the text of `rest`.
fn prefixed(prefix: &str, rest: &str) -> (res: String)
    ensures
        res@ == prefix@ + rest@,
{
    let a = chars_of(prefix);
    let b = chars_of(rest);
    let c = concat_chars(&a, &b);
    string_of(&c)
}

/// The command the stage button of a file row sends: unstage for a staged
/// file, stage otherwise.
pub fn stage_command(path: &str, is_staged: bool) -> (res: String)
    ensures
        is_staged ==> res@ == "git.unstage:"@ + path@,
        !is_staged ==> res@ == "git.stage:"@ + path@,
{
    if is_staged {
        prefixed("git.unstage:", path)
    } else {
        prefixed("git.stage:", path)
    }
}

/// The command the discard button of a file row sends.
pub fn discard_command(path: &str) -> (res: String)
    ensures
        res@ == "git.discard:"@ + path@,
{
    prefixed("git.discard:", path)
}

/// The command the commit button sends: the message, or `Update` when it is empty.
pub fn commit_command(message: &str) -> (res: String)
    ensures
        message@.len() == 0 ==> res@ == "git.commit:"@ + "Update"@,
        message@.len() > 0 ==> res@ == "git.commit:"@ + message@,
{
    let m = chars_of(message);
    if m.len() == 0 {
        prefixed("git.commit:", "Update")
    } else {
        prefixed("git.commit:", message)
    }
}

/// The buttons above the source-control lists that talk to the remote.
#[derive(Clone, Copy, Debug, PartialEq, Eq, Structural)]
pub enum RemoteButton {
    Push,
    Pull,
    Sync,
}

/// The command a remote button sends: `git.push`, `git.pull` or `git.sync`.
pub fn remote_command(button: RemoteButton) -> (res: &'static str)
    ensures
        res@ == match button {
            RemoteButton::Push => "git.push"@,
            RemoteButton::Pull => "git.pull"@,
            RemoteButton::Sync => "git.sync"@,
        },
{
    match button {
        RemoteButton::Push => "git.push",
        RemoteButton::Pull => "git.pull",
        RemoteButton::Sync => "git.sync",
    }
}

/// A click on a changed-file row: asks to open the file at `path` (read from
/// disk) in a tab titled with its file name (empty without one), or nothing
/// when the row has no path. For a path split at `/` (see `portable_path`)
/// the title is the part after the last `/`.
pub fn row_open_request(path: &str) -> (res: Option<(String, String)>)
    ensures
        path@.len() == 0 <==> res is None,
        res matches Some((p, t)) ==> p@ == path@ && (portable_path(path@) ==> t@ == after_last_slash(path@))
            && (plain_name(path@) ==> t@ == path@),
{
    if chars_of(path).len() == 0 {
        return None;
    }
    let title = match path_file_name(path) {
        Some(n) => n,
        None => String::new(),
    };
    Some((owned(path), title))
}

/// Whether the plugin sidebar item `item_id` is the one to show for the
/// active panel: the same id, with `git` and `git_sidebar` naming the same panel.
pub fn panel_matches(active_panel: &str, item_id: &str) -> (res: bool)
    ensures
        res == (item_id@ == active_panel@ || (active_panel@ == "git"@ && item_id@ == "git_sidebar"@)
            || (active_panel@ == "git_sidebar"@ && item_id@ == "git"@)),
{
    crate::text::same_text(item_id, active_panel) || (crate::text::same_text(active_panel, "git")
        && crate::text::same_text(item_id, "git_sidebar")) || (crate::text::same_text(active_panel, "git_sidebar")
        && crate::text::same_text(item_id, "git"))
}

/// A file path on either side of the comparison matches itself.
pub proof fn law_file_path_matches_itself(p: Seq<char>)
    ensures
        git_path_matches(p, p, false),
{
}

/// For files the comparison does not depend on which side is the Git path.
pub proof fn law_file_match_symmetric(a: Seq<char>, b: Seq<char>)
    ensures
        git_path_matches(a, b, false) == git_path_matches(b, a, false),
{
}

/// Text that occurs somewhere has a last occurrence.
proof fn lemma_last_occurrence_exists(s: Seq<char>, p: Seq<char>, i: int)
    requires
        occurs_at(s, p, i),
    ensures
        exists|c: int| occurs_at(s, p, c) && forall|j: int| c < j ==> !occurs_at(s, p, j),
    decreases s.len() - i,
{
    if exists|j: int| i < j && occurs_at(s, p, j) {
        let j = choose|j: int| i < j && occurs_at(s, p, j);
        lemma_last_occurrence_exists(s, p, j);
    } else {
        assert(occurs_at(s, p, i) && forall|j: int| i < j ==> !occurs_at(s, p, j));
    }
}

/// A folder matches a Git path only through its own end: either the Git path
/// starts with the whole folder path, or some non-empty tail of the folder path
/// (running to its end) followed by `/` starts the Git path. A Git path that
/// shares only a leading part with the folder, such as a file beside the
/// folder, does not match.
pub proof fn law_folder_match_runs_to_its_end(dir: Seq<char>, git_path: Seq<char>)
    requires
        git_path_matches(dir, git_path, true),
    ensures
        ({
            let tf = trim_end_char(normalize(dir), '/');
            let tg = trim_start_char(normalize(git_path), '/');
            starts_with(tg, tf) || exists|k: int|
                0 <= k < tf.len() && #[trigger] starts_with(tg, tf.skip(k) + seq!['/'])
        }),
{
    let tf = trim_end_char(normalize(dir), '/');
    let tg = trim_start_char(normalize(git_path), '/');
    if !starts_with(tg, tf) {
        let (a, b) = choose|a: int, b: int| #[trigger] part_hit(tf, tg, a, b);
        let part = tf.subrange(a, b);
        assert(occurs_at(tf, part, a));
        lemma_last_occurrence_exists(tf, part, a);
        let k = last_position(tf, part);
        assert(occurs_at(tf, part, k) && forall|j: int| k < j ==> !occurs_at(tf, part, j));
        assert(0 <= k < tf.len());
        assert(starts_with(tg, tf.skip(k) + seq!['/']));
    }
}

} // verus!
