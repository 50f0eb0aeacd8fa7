//! The path resolver: pure joining of a configured root with a
//! caller-supplied relative identifier, and the stem rule for addon folders.
//!
//! Joining performs no normalization and no traversal sanitization: a
//! relative identifier is appended as given, with a `/` separator inserted
//! only when the root does not already end in a separator (`/` is accepted
//! by both platforms this backend targets, alongside roots written with
//! `\`).

use vstd::prelude::*;
use crate::errors::FileError;

verus! {

/// The characters that end a root without needing a separator inserted.
pub open spec fn is_separator(c: char) -> bool {
    c == '/' || c == '\\'
}

/// What joining a root with a relative name yields: the name alone for an
/// empty root, otherwise the root, a `/` if the root does not already end
/// in a separator, then the name.
pub open spec fn join_spec(root: Seq<char>, name: Seq<char>) -> Seq<char> {
    if root.len() == 0 {
        name
    } else if is_separator(root.last()) {
        root + name
    } else {
        root + seq!['/'] + name
    }
}

/// The index of the last `.` in `name`, or `-1` when it has none.
pub open spec fn last_dot(name: Seq<char>) -> int
    decreases name.len(),
{
    if name.len() == 0 {
        -1
    } else if name.last() == '.' {
        name.len() - 1
    } else {
        last_dot(name.drop_last())
    }
}

/// The stem of a filename-like identifier: everything before the last `.`,
/// or the whole name when it carries no extension.
pub open spec fn stem_spec(name: Seq<char>) -> Seq<char> {
    if last_dot(name) < 0 {
        name
    } else {
        name.subrange(0, last_dot(name))
    }
}

proof fn lemma_last_dot_at(name: Seq<char>, i: int)
    requires
        0 <= i < name.len(),
        name[i] == '.',
        forall|j: int| i < j < name.len() ==> name[j] != '.',
    ensures
        last_dot(name) == i,
    decreases name.len(),
{
    if i < name.len() - 1 {
        assert(name.drop_last() =~= name.subrange(0, name.len() - 1));
        lemma_last_dot_at(name.drop_last(), i);
    }
}

proof fn lemma_last_dot_none(name: Seq<char>)
    requires
        forall|j: int| 0 <= j < name.len() ==> name[j] != '.',
    ensures
        last_dot(name) == -1,
    decreases name.len(),
{
    if name.len() > 0 {
        lemma_last_dot_none(name.drop_last());
    }
}

/// Platform-style join of a root directory and a relative name, with no
/// normalization beyond separator insertion.
pub fn join(root: &str, name: &str) -> (r: String)
    ensures
        r@ == join_spec(root@, name@),
{
    let n: usize = root.unicode_len();
    if n == 0 {
        return String::from_str(name);
    }
    let last: char = root.get_char(n - 1);
    let mut r: String = String::from_str(root);
    if !(last == '/' || last == '\\') {
        r.append("/");
        proof {
            reveal_strlit("/");
            assert(r@ =~= root@ + seq!['/']);
        }
    }
    r.append(name);
    proof {
        assert(r@ =~= join_spec(root@, name@));
    }
    r
}

/// The stem of `name`: `name` with its final extension segment removed, or
/// `name` itself when it has no `.`.
pub fn file_stem(name: &str) -> (r: String)
    ensures
        r@ == stem_spec(name@),
{
    let n: usize = name.unicode_len();
    let mut i: usize = n;
    while i > 0
        invariant
            i <= n,
            n == name@.len(),
            forall|j: int| i <= j < n ==> name@[j] != '.',
        decreases i,
    {
        let c: char = name.get_char(i - 1);
        if c == '.' {
            proof {
                lemma_last_dot_at(name@, i - 1);
            }
            let s: &str = name.substring_char(0, i - 1);
            return String::from_str(s);
        }
        i = i - 1;
    }
    proof {
        lemma_last_dot_none(name@);
    }
    String::from_str(name)
}

/// Resolves a tile filename against the configured tile root: exactly the
/// platform join of the two, traversal segments and all.
pub fn resolve_tile(root: &str, relative_name: &str) -> (r: String)
    ensures
        r@ == join_spec(root@, relative_name@),
{
    join(root, relative_name)
}

/// Resolves an addon folder identifier against the configured addon root:
/// the identifier's stem joined under the root, with the fixed well-known
/// filename `playlist.xml` appended. An identifier with no usable stem
/// (empty, or nothing before its only `.`) fails with `NoStem`.
pub fn resolve_addon(root: &str, folder_name: &str) -> (r: Result<String, FileError>)
    ensures
        stem_spec(folder_name@).len() == 0 ==> r is Err && r->Err_0 == FileError::NoStem,
        stem_spec(folder_name@).len() > 0 ==> r is Ok && r->Ok_0@ == join_spec(
            join_spec(root@, stem_spec(folder_name@)),
            "playlist.xml"@,
        ),
{
    let stem: String = file_stem(folder_name);
    if stem.as_str().unicode_len() == 0 {
        return Err(FileError::NoStem);
    }
    let folder: String = join(root, stem.as_str());
    Ok(join(folder.as_str(), "playlist.xml"))
}

} // verus!
