//! File names and extensions of path strings.
use vstd::prelude::*;

use crate::text::chars_of;

verus! {

/// A path that is a single plain name on every platform: not empty, not `.`
/// or `..`, and free of `/`, `\` and `:`.
pub open spec fn plain_name(p: Seq<char>) -> bool {
    p.len() > 0 && !p.contains('/') && !p.contains('\\') && !p.contains(':') && p != seq!['.'] && p
        != seq!['.', '.']
}

/// `res` is a name made of exactly the characters `name`.
pub open spec fn is_name(res: Option<String>, name: Seq<char>) -> bool {
    match res {
        Some(n) => n@ == name,
        None => false,
    }
}

/// The part of `p` after its last `/` (all of `p` when it has none).
pub open spec fn after_last_slash(p: Seq<char>) -> Seq<char>
    decreases p.len(),
{
    if p.len() == 0 {
        p
    } else if p.last() == '/' {
        seq![]
    } else {
        after_last_slash(p.drop_last()).push(p.last())
    }
}

/// The part after the last `/` of a folder path, a `/` and a name without
/// `/` is that name.
pub proof fn lemma_after_last_slash_of_join(dir: Seq<char>, name: Seq<char>)
    requires
        !name.contains('/'),
    ensures
        after_last_slash(dir + seq!['/'] + name) == name,
    decreases name.len(),
{
    let p = dir + seq!['/'] + name;
    if name.len() == 0 {
        assert(p.last() == '/');
    } else {
        assert(p.drop_last() =~= dir + seq!['/'] + name.drop_last());
        assert(!name.drop_last().contains('/')) by {
            if name.drop_last().contains('/') {
                let k = choose|k: int| 0 <= k < name.drop_last().len() && name.drop_last()[k] == '/';
                assert(name[k] == '/');
            }
        }
        assert(name.contains(name.last()));
        lemma_after_last_slash_of_join(dir, name.drop_last());
        assert(name.drop_last().push(name.last()) =~= name);
    }
}

/// A path that every platform splits the same way at `/`: it holds no `\`
/// and no `:`, does not start with `//` (a network share on Windows), and
/// ends in a plain name after its last `/`.
pub open spec fn portable_path(p: Seq<char>) -> bool {
    &&& !p.contains('\\')
    &&& !p.contains(':')
    &&& !(p.len() >= 2 && p[0] == '/' && p[1] == '/')
    &&& plain_name(after_last_slash(p))
}

/// The part of `p` before its last `/` (empty when it has none).
pub open spec fn before_last_slash(p: Seq<char>) -> Seq<char>
    decreases p.len(),
{
    if p.len() == 0 {
        p
    } else if p.last() == '/' {
        p.drop_last()
    } else {
        before_last_slash(p.drop_last())
    }
}

/// The part before the last `/` is shorter than the path.
pub proof fn lemma_before_last_slash_shorter(p: Seq<char>)
    requires
        p.len() > 0,
    ensures
        before_last_slash(p).len() < p.len(),
    decreases p.len(),
{
    if p.last() != '/' {
        if p.len() > 1 {
            lemma_before_last_slash_shorter(p.drop_last());
        } else {
            assert(p.drop_last().len() == 0);
            assert(before_last_slash(p.drop_last()).len() == 0);
        }
    }
}

/// A relative path made of plain names joined by single `/`s, which every
/// platform reads the same way.
pub open spec fn clean_relative(p: Seq<char>) -> bool
    decreases p.len(),
{
    &&& !p.contains('\\')
    &&& !p.contains(':')
    &&& plain_name(after_last_slash(p))
    &&& p.contains('/') ==> {
        proof {
            if p.len() > 0 {
                lemma_before_last_slash_shorter(p);
            }
        }
        p.len() > 0 && clean_relative(before_last_slash(p))
    }
}

/// Calls `std::path::Path::parent` on the path (and reads it back as text).
/// Trusted: for a clean relative path (see `clean_relative`) the parent is the
/// part before the last `/`, empty for a single name. What it gives for other
/// paths depends on the platform's path rules and is not stated.
#[verifier::external_body]
pub(crate) fn path_parent(path: &str) -> (res: Option<String>)
    ensures
        clean_relative(path@) ==> is_name(res, before_last_slash(path@)),
{
    std::path::Path::new(path).parent().map(|p| p.to_string_lossy().to_string())
}

/// Calls `std::path::Path::file_name` on the path (and reads the name back as
/// text). Trusted: any name it gives is non-empty and holds no `/`; a plain
/// name is its own file name; and a path that every platform splits the same
/// way at `/` (see `portable_path`) has the part after its last `/` as file
/// name, as the documentation of `Path::file_name` and `Path::components`
/// gives. Which name it gives for other paths depends on the platform's path
/// rules (`\` separates components, and `C:` starts a path, on Windows only)
/// and is not stated.
#[verifier::external_body]
pub(crate) fn path_file_name(path: &str) -> (res: Option<String>)
    ensures
        res matches Some(n) ==> n@.len() > 0 && !n@.contains('/'),
        plain_name(path@) ==> is_name(res, path@),
        portable_path(path@) ==> is_name(res, after_last_slash(path@)),
{
    std::path::Path::new(path).file_name().and_then(|n| n.to_str()).map(|n| n.to_string())
}

/// The position of the last `.` in a name, if there is one.
pub open spec fn last_dot(name: Seq<char>) -> Option<int> {
    if exists|i: int| 0 <= i < name.len() && name[i] == '.' {
        Some(choose|i: int| 0 <= i < name.len() && name[i] == '.' && forall|j: int| i < j < name.len() ==> name[j] != '.')
    } else {
        None
    }
}

/// The extension of a file name, as `Path::extension` defines it: the text
/// after the last `.`, unless there is no `.` or the only `.` leads the name.
pub open spec fn extension_of(name: Seq<char>) -> Option<Seq<char>> {
    match last_dot(name) {
        Some(i) => if i > 0 {
            Some(name.skip(i + 1))
        } else {
            None
        },
        None => None,
    }
}

/// The extension of a file name.
pub fn file_extension(name: &Vec<char>) -> (res: Option<Vec<char>>)
    ensures
        match res {
            Some(e) => extension_of(name@) == Some(e@),
            None => extension_of(name@) is None,
        },
{
    let mut i: usize = name.len();
    while i > 0
        invariant
            i <= name.len(),
            forall|j: int| i <= j < name.len() ==> name@[j] != '.',
        decreases i,
    {
        if name[i - 1] == '.' {
            let d = i - 1;
            assert(last_dot(name@) == Some(d as int)) by {
                let c = choose|k: int| 0 <= k < name@.len() && name@[k] == '.' && forall|j: int| k < j < name@.len() ==> name@[j] != '.';
                assert(0 <= c < name@.len() && name@[c] == '.' && forall|j: int| c < j < name@.len() ==> name@[j] != '.');
                if c < d {
                    assert(name@[d as int] == '.');
                }
                if c > d {
                    assert(name@[c] == '.');
                }
            }
            if d == 0 {
                return None;
            }
            let mut e: Vec<char> = Vec::new();
            let mut k: usize = i;
            while k < name.len()
                invariant
                    i <= k <= name.len(),
                    e@ == name@.subrange(i as int, k as int),
                decreases name.len() - k,
            {
                e.push(name[k]);
                k = k + 1;
                assert(e@ =~= name@.subrange(i as int, k as int));
            }
            assert(e@ =~= name@.skip(i as int));
            return Some(e);
        }
        i = i - 1;
    }
    None
}

/// Whether the file name's extension is exactly `ext`.
pub fn has_extension(name: &Vec<char>, ext: &str) -> (res: bool)
    ensures
        res == (extension_of(name@) == Some(ext@)),
{
    match file_extension(name) {
        Some(e) => {
            let x = chars_of(ext);
            crate::text::chars_equal(&e, &x)
        },
        None => false,
    }
}

} // verus!
