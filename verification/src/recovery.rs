//! Crash recovery: snapshots of unsaved buffers, kept as backup files, and
//! how a backup file is named and recognised.
use vstd::prelude::*;

use crate::paths::{extension_of, has_extension};
use crate::text::{chars_of, concat_chars, owned, string_of, string_view, text_view};

verus! {

/// A leftover snapshot of an unsaved buffer, found again at start-up.
#[derive(Clone, Debug, PartialEq)]
pub struct RecoverySnapshot {
    pub original_path: String,
    pub backup_file_path: String,
    pub content: String,
}

/// Where the snapshots are kept (the folder itself is made and read by the caller).
pub struct RecoveryManager {
    pub backup_dir: String,
}

/// A path character kept in a backup file name: path separators and drive
/// colons become `_`.
pub open spec fn backup_name_char(c: char) -> char {
    if c == ':' || c == '\\' || c == '/' {
        '_'
    } else {
        c
    }
}

/// The suffix of every backup file name.
pub open spec fn backup_suffix() -> Seq<char> {
    seq!['.', 'b', 'a', 'c', 'k', 'u', 'p']
}

/// The backup file name for a buffer at `path`.
pub open spec fn backup_name(path: Seq<char>) -> Seq<char> {
    path.map_values(|c: char| backup_name_char(c)) + backup_suffix()
}

/// What `serde_json::to_string_pretty` writes for the JSON object whose members
/// are `key_a` with the string `text_a`, `key_b` with the string `text_b` and
/// `key_n` with the number `number`; none when it reports an error.
pub uninterp spec fn pretty_json_record(
    key_a: Seq<char>,
    text_a: Seq<char>,
    key_b: Seq<char>,
    text_b: Seq<char>,
    key_n: Seq<char>,
    number: u64,
) -> Option<Seq<char>>;

/// The string held by the member `key` of the JSON object that `serde_json`
/// parses from `text`: none when `text` is not JSON, not an object, or has no
/// string member `key`.
pub uninterp spec fn json_string_member(text: Seq<char>, key: Seq<char>) -> Option<Seq<char>>;

/// Builds the JSON object with the members `key_a: text_a`, `key_b: text_b`
/// and `key_n: number` and writes it with `serde_json::to_string_pretty`.
/// Trusted: the result is what `pretty_json_record` names; and, when the three
/// keys differ, reading `key_a` or `key_b` back from the written text with
/// `serde_json::from_str` gives the string stored under it (serde_json escapes
/// every string it writes and its parser undoes the escapes). The call
/// never fails: its documentation names as causes of failure only a
/// `Serialize` impl that fails or map keys that are not strings, and a JSON
/// value with string keys has neither.
#[verifier::external_body]
fn write_json_record(
    key_a: &str,
    text_a: &str,
    key_b: &str,
    text_b: &str,
    key_n: &str,
    number: u64,
) -> (res: Option<String>)
    ensures
        res is Some,
        string_view(res) == pretty_json_record(key_a@, text_a@, key_b@, text_b@, key_n@, number),
        res matches Some(t) ==> (key_a@ != key_b@ && key_a@ != key_n@ && key_b@ != key_n@ ==> (
        json_string_member(t@, key_a@) == Some(text_a@) && json_string_member(t@, key_b@) == Some(
            text_b@,
        ))),
{
    let mut object = serde_json::Map::new();
    object.insert(key_a.to_string(), serde_json::Value::String(text_a.to_string()));
    object.insert(key_b.to_string(), serde_json::Value::String(text_b.to_string()));
    object.insert(key_n.to_string(), serde_json::Value::from(number));
    serde_json::to_string_pretty(&serde_json::Value::Object(object)).ok()
}

/// Parses `text` with `serde_json::from_str` into a JSON value and takes the
/// string member `key` of it. Trusted: the result is what `json_string_member`
/// names.
#[verifier::external_body]
fn read_json_string_member(text: &str, key: &str) -> (res: Option<String>)
    ensures
        string_view(res) == json_string_member(text@, key@),
{
    match serde_json::from_str::<serde_json::Value>(text) {
        Ok(value) => match value.get(key) {
            Some(serde_json::Value::String(member)) => Some(member.clone()),
            _ => None,
        },
        Err(_) => None,
    }
}

/// The record a snapshot file holds for a buffer at `original_path` with the
/// text `content`, saved at `timestamp`.
pub open spec fn snapshot_record(original_path: Seq<char>, content: Seq<char>, timestamp: u64) -> Option<Seq<char>> {
    pretty_json_record("original_path"@, original_path, "content"@, content, "timestamp"@, timestamp)
}

/// An entry of the backup folder, as the start-up scan sees it.
pub struct BackupEntry {
    /// The entry's full path.
    pub path: String,
    /// Its file name, when it has one that is valid Unicode.
    pub file_name: Option<String>,
    pub is_file: bool,
    /// What the file holds, when it is a snapshot file and could be read.
    pub text: Option<String>,
}

/// A snapshot's backup file path, original path and content.
pub open spec fn snapshot_view(s: RecoverySnapshot) -> (Seq<char>, Seq<char>, Seq<char>) {
    (s.backup_file_path@, s.original_path@, s.content@)
}

/// The original path and content a folder entry gives back: when it is a
/// snapshot file (see `is_backup_entry`), could be read, and its JSON record
/// has the string members `original_path` and `content`.
pub open spec fn snapshot_in(file_name: Option<Seq<char>>, is_file: bool, text: Option<Seq<char>>) -> Option<
    (Seq<char>, Seq<char>),
> {
    if is_backup_entry(file_name, is_file) {
        match text {
            Some(t) => match (json_string_member(t, "original_path"@), json_string_member(t, "content"@)) {
                (Some(o), Some(c)) => Some((o, c)),
                _ => None,
            },
            None => None,
        }
    } else {
        None
    }
}

/// The snapshots found among `entries`, in order: each entry that gives one
/// back (see `snapshot_in`), with its path.
pub open spec fn found_snapshots(entries: Seq<BackupEntry>) -> Seq<(Seq<char>, Seq<char>, Seq<char>)>
    decreases entries.len(),
{
    if entries.len() == 0 {
        seq![]
    } else {
        let rest = found_snapshots(entries.drop_last());
        let e = entries.last();
        match snapshot_in(string_view(e.file_name), e.is_file, string_view(e.text)) {
            Some((o, c)) => rest.push((e.path@, o, c)),
            None => rest,
        }
    }
}

/// Whether a folder entry is a snapshot: a file whose name has the extension `backup`.
pub open spec fn is_backup_entry(file_name: Option<Seq<char>>, is_file: bool) -> bool {
    is_file && match file_name {
        Some(n) => extension_of(n) == Some(seq!['b', 'a', 'c', 'k', 'u', 'p']),
        None => false,
    }
}

impl RecoveryManager {
    /// A manager keeping its snapshots in `backup_dir`.
    pub fn with_backup_dir(backup_dir: String) -> (res: Self)
        ensures
            res.backup_dir == backup_dir,
    {
        RecoveryManager { backup_dir }
    }

    /// The backup file name for a buffer at `path`: the path with `:`, `\`
    /// and `/` turned into `_`, followed by `.backup`.
    pub fn path_to_backup_name(path: &str) -> (res: String)
        ensures
            res@ == backup_name(path@),
    {
        let p = chars_of(path);
        let mut clean: Vec<char> = Vec::new();
        let mut i: usize = 0;
        while i < p.len()
            invariant
                i <= p@.len(),
                clean@ == p@.take(i as int).map_values(|c: char| backup_name_char(c)),
            decreases p@.len() - i,
        {
            let c = p[i];
            if c == ':' || c == '\\' || c == '/' {
                clean.push('_');
            } else {
                clean.push(c);
            }
            i = i + 1;
            assert(clean@ =~= p@.take(i as int).map_values(|c: char| backup_name_char(c)));
        }
        assert(p@.take(i as int) =~= p@);
        let mut suffix: Vec<char> = Vec::new();
        suffix.push('.');
        suffix.push('b');
        suffix.push('a');
        suffix.push('c');
        suffix.push('k');
        suffix.push('u');
        suffix.push('p');
        assert(suffix@ =~= backup_suffix());
        let all = concat_chars(&clean, &suffix);
        string_of(&all)
    }

    /// Whether a folder entry is a snapshot file, the only ones the start-up
    /// scan reads: a file whose name has the extension `backup`.
    pub fn is_snapshot_file(file_name: Option<&str>, is_file: bool) -> (res: bool)
        ensures
            res == is_backup_entry(text_view(file_name), is_file),
    {
        if !is_file {
            return false;
        }
        match file_name {
            Some(n) => {
                let v = chars_of(n);
                proof {
                    reveal_strlit("backup");
                }
                assert("backup"@ =~= seq!['b', 'a', 'c', 'k', 'u', 'p']);
                has_extension(&v, "backup")
            },
            None => false,
        }
    }

    /// The snapshot a folder entry holds (see `snapshot_in`): `text` is what
    /// the file holds, when it could be read.
    pub fn snapshot_from_entry(
        backup_file_path: &str,
        file_name: Option<&str>,
        is_file: bool,
        text: Option<&str>,
    ) -> (res: Option<RecoverySnapshot>)
        ensures
            res is Some <==> snapshot_in(text_view(file_name), is_file, text_view(text)) is Some,
            res matches Some(s) ==> snapshot_in(text_view(file_name), is_file, text_view(text))
                == Some((s.original_path@, s.content@)) && s.backup_file_path@ == backup_file_path@,
    {
        if !Self::is_snapshot_file(file_name, is_file) {
            return None;
        }
        let t = match text {
            Some(t) => t,
            None => return None,
        };
        let original = read_json_string_member(t, "original_path");
        let content = read_json_string_member(t, "content");
        match (original, content) {
            (Some(o), Some(c)) => Some(
                RecoverySnapshot { original_path: o, backup_file_path: owned(backup_file_path), content: c },
            ),
            _ => None,
        }
    }

    /// The snapshots among the entries of the backup folder, in the order of
    /// the entries (see `found_snapshots`).
    pub fn list_snapshots(entries: &Vec<BackupEntry>) -> (res: Vec<RecoverySnapshot>)
        ensures
            res@.map_values(|s: RecoverySnapshot| snapshot_view(s)) == found_snapshots(entries@),
    {
        let mut res: Vec<RecoverySnapshot> = Vec::new();
        let mut i: usize = 0;
        while i < entries.len()
            invariant
                i <= entries@.len(),
                res@.map_values(|s: RecoverySnapshot| snapshot_view(s)) == found_snapshots(
                    entries@.take(i as int),
                ),
            decreases entries@.len() - i,
        {
            let e = &entries[i];
            let name = match &e.file_name {
                Some(n) => Some(n.as_str()),
                None => None,
            };
            let text = match &e.text {
                Some(t) => Some(t.as_str()),
                None => None,
            };
            let found = Self::snapshot_from_entry(e.path.as_str(), name, e.is_file, text);
            assert(entries@.take(i + 1).drop_last() =~= entries@.take(i as int));
            let ghost before = res@;
            match found {
                Some(s) => {
                    res.push(s);
                    assert(res@.map_values(|s: RecoverySnapshot| snapshot_view(s)) =~= before.map_values(
                        |s: RecoverySnapshot| snapshot_view(s),
                    ).push(snapshot_view(res@.last())));
                },
                None => {},
            }
            i = i + 1;
        }
        assert(entries@.take(i as int) =~= entries@);
        res
    }

    /// Saving a snapshot of the unsaved buffer at `original_path`: gives the
    /// backup file name and the text to write to it, a pretty-printed JSON
    /// record of the path, the content and `timestamp` (seconds since the
    /// Unix epoch); writing the record always succeeds. A snapshot
    /// saved this way is found again by the start-up scan with its path and
    /// content, for every non-empty path.
    pub fn save_snapshot(&self, original_path: &str, content: &str, timestamp: u64) -> (res: Option<
        (String, String),
    >)
        ensures
            res is Some,
            snapshot_record(original_path@, content@, timestamp) is Some,
            res matches Some((name, text)) ==> name@ == backup_name(original_path@) && Some(text@)
                == snapshot_record(original_path@, content@, timestamp),
            res matches Some((name, text)) ==> (original_path@.len() > 0 ==> snapshot_in(
                Some(name@),
                true,
                Some(text@),
            ) == Some((original_path@, content@))),
    {
        let name = Self::path_to_backup_name(original_path);
        let written = write_json_record("original_path", original_path, "content", content, "timestamp", timestamp);
        proof {
            reveal_strlit("original_path");
            reveal_strlit("content");
            reveal_strlit("timestamp");
            assert("original_path"@[0] != "content"@[0]);
            assert("original_path"@[0] != "timestamp"@[0]);
            assert("content"@[0] != "timestamp"@[0]);
        }
        match written {
            Some(text) => {
                proof {
                    if original_path@.len() > 0 {
                        law_backup_name_recognised(original_path@);
                    }
                }
                Some((name, text))
            },
            None => None,
        }
    }

    /// Removing the snapshot of the buffer at `original_path` (after a save,
    /// or when its tab closes): gives the backup file name to delete.
    pub fn remove_snapshot(&self, original_path: &str) -> (res: String)
        ensures
            res@ == backup_name(original_path@),
    {
        Self::path_to_backup_name(original_path)
    }
}

/// Backup names never hold a path separator or a drive colon, so every
/// snapshot lands directly in the backup folder.
pub proof fn law_backup_name_is_flat(path: Seq<char>)
    ensures
        forall|i: int|
            0 <= i < backup_name(path).len() ==> #[trigger] backup_name(path)[i] != '/'
                && backup_name(path)[i] != '\\' && backup_name(path)[i] != ':',
        backup_name(path).len() == path.len() + 7,
{
    assert forall|i: int| 0 <= i < backup_name(path).len() implies #[trigger] backup_name(path)[i] != '/'
        && backup_name(path)[i] != '\\' && backup_name(path)[i] != ':' by {
        if i < path.len() {
            assert(backup_name(path)[i] == backup_name_char(path[i]));
        } else {
            assert(backup_name(path)[i] == backup_suffix()[i - path.len()]);
        }
    }
}

/// The backup name of a non-empty path has the extension `backup`, so the
/// start-up scan recognises every snapshot it wrote.
pub proof fn law_backup_name_recognised(path: Seq<char>)
    requires
        path.len() > 0,
    ensures
        extension_of(backup_name(path)) == Some(seq!['b', 'a', 'c', 'k', 'u', 'p']),
{
    let n = backup_name(path);
    let d = path.len() as int;
    assert(n[d] == '.');
    assert forall|j: int| d < j < n.len() implies n[j] != '.' by {
        assert(n[j] == backup_suffix()[j - d]);
    }
    assert(exists|i: int| 0 <= i < n.len() && n[i] == '.');
    let c = choose|i: int| 0 <= i < n.len() && n[i] == '.' && forall|j: int| i < j < n.len() ==> n[j] != '.';
    assert(0 <= c < n.len() && n[c] == '.' && forall|j: int| c < j < n.len() ==> n[j] != '.') by {
        assert(0 <= d < n.len() && n[d] == '.' && forall|j: int| d < j < n.len() ==> n[j] != '.');
    }
    if c < d {
        assert(n[d] == '.');
    }
    if c > d {
        assert(n[c] == backup_suffix()[c - d]);
    }
    assert(c == d);
    assert(n.skip(d + 1) =~= seq!['b', 'a', 'c', 'k', 'u', 'p']);
}

} // verus!
