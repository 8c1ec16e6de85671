//! Where the record of a tracked file is kept, and what the file is called.
//!
//! A tracked file is known by its canonical absolute path. Its record lies
//! under a fixed root directory, in a file named by the digest of that path,
//! so that files of the same name in different directories do not meet.

use crate::digest::{digest_hex, generate_hash};
use vstd::prelude::*;

verus! {

/// Whether the last component of `path` begins at `start`: `start` lies just
/// behind a `/` or at the very beginning, and no `/` follows it.
pub open spec fn is_name_start(path: Seq<char>, start: int) -> bool {
    &&& 0 <= start <= path.len()
    &&& start > 0 ==> path[start - 1] == '/'
    &&& forall|i: int| start <= i < path.len() ==> path[i] != '/'
}

/// The position at which the last component of `path` begins.
pub open spec fn name_start(path: Seq<char>) -> int {
    choose|start: int| is_name_start(path, start)
}

/// The display name of the file at `path`: its last component, which is what
/// follows the last `/`, or all of the path if it holds none.
pub open spec fn display_name(path: Seq<char>) -> Seq<char> {
    path.skip(name_start(path))
}

/// The last component begins at one position only.
pub proof fn lemma_name_start(path: Seq<char>, start: int)
    requires
        is_name_start(path, start),
    ensures
        name_start(path) == start,
        display_name(path) == path.skip(start),
{
    let chosen = name_start(path);
    assert(is_name_start(path, chosen));
    if chosen < start {
        assert(path[start - 1] == '/');
    } else if start < chosen {
        assert(path[chosen - 1] == '/');
    }
}

/// The display name of the file at `path`.
pub fn file_name(path: &str) -> (name: String)
    ensures
        name@ == display_name(path@),
{
    let len = path.unicode_len();
    let mut start: usize = 0;
    let mut seen: usize = 0;
    for c in it: path.chars()
        invariant
            it.seq() == path@,
            len == path@.len(),
            seen == it.index(),
            is_name_start(path@.take(seen as int), start as int),
    {
        seen = seen + 1;
        if c == '/' {
            start = seen;
        }
    }
    proof {
        assert(path@.take(seen as int) =~= path@);
        lemma_name_start(path@, start as int);
    }
    path.substring_char(start, len).to_owned()
}

/// The directory below the home directory `home` in which records are kept.
pub open spec fn storage_root_of(home: Seq<char>) -> Seq<char> {
    home + "/.cit/files"@
}

/// The directory below the home directory `home` in which records are kept.
pub fn storage_root(home: &str) -> (root: String)
    ensures
        root@ == storage_root_of(home@),
{
    let mut root = home.to_owned();
    root.append("/.cit/files");
    root
}

/// The place of the record whose name is `digest`, below `root`.
pub open spec fn record_location(root: Seq<char>, digest: Seq<char>) -> Seq<char> {
    root + "/"@ + digest + ".cit"@
}

/// The place of the record whose name is `digest`, below `root`.
pub fn record_path(root: &str, digest: &str) -> (location: String)
    ensures
        location@ == record_location(root@, digest@),
{
    let mut location = root.to_owned();
    location.append("/");
    location.append(digest);
    location.append(".cit");
    location
}

/// The place, below `root`, of the record of the file whose canonical path
/// is `filepath`: the record is named by the digest of the path.
pub fn build_cit_file_path(root: &str, filepath: &str) -> (location: String)
    ensures
        location@ == record_location(root@, digest_hex(filepath@)),
{
    let digest = generate_hash(filepath);
    record_path(root, digest.as_str())
}

} // verus!
