//! Paths as forward-slash texts, and the sharded layout of a backup's store.
//!
//! A path here is a sequence of characters in which `/` separates the
//! components; nothing in this module touches a file system. The paths
//! meant are those of a manifest and of a store: names of files, written
//! component by component, with no `/` at the end and no component `.` or
//! `..`. On these, the last component, the parent and the extension are
//! what a file system takes them to be.
//!
//! The functions take every text all the same, and read it by its
//! characters alone: the last component is what follows the last `/`, so a
//! path that ends in `/` has the empty last component and no extension, and
//! `.` and `..` are components like any other. A file system may read such
//! a path otherwise: it may pass over a `/` at the end and take `b` for the
//! last component of `a/b/`.

use vstd::prelude::*;
use crate::outcome::ExtractError;
use crate::text::{
    chars_of, find_last, followed_by, last_index_of, lemma_last_index_of, lemma_last_index_of_is,
    owned, slice_of,
};

verus! {

/// A path that starts at the root of the file system.
pub open spec fn is_absolute(path: Seq<char>) -> bool {
    path.len() > 0 && path[0] == '/'
}

/// `rel` below `base`: an absolute `rel` stands for itself; otherwise the two
/// are put together with exactly one `/` between them, which an empty `base`
/// or one that already ends in `/` does not need.
pub open spec fn joined(base: Seq<char>, rel: Seq<char>) -> Seq<char> {
    if is_absolute(rel) {
        rel
    } else if base.len() == 0 || base.last() == '/' {
        base + rel
    } else {
        base + seq!['/'] + rel
    }
}

/// The last component of `path`: what follows its last `/`, or all of it.
pub open spec fn file_name_of(path: Seq<char>) -> Seq<char> {
    path.subrange(last_index_of(path, '/') + 1, path.len() as int)
}

/// The directory that holds `path`: what stands before its last `/`. A path
/// without `/` has the empty parent, and a path directly under the root has
/// the root.
pub open spec fn parent_of(path: Seq<char>) -> Seq<char> {
    let cut = last_index_of(path, '/');
    if cut < 0 {
        Seq::empty()
    } else if cut == 0 {
        seq!['/']
    } else {
        path.subrange(0, cut)
    }
}

/// The extension of the file name `name`: what follows its last `.`, unless
/// that `.` is the name's first character. Empty where there is none.
pub open spec fn extension_of_name(name: Seq<char>) -> Seq<char> {
    let dot = last_index_of(name, '.');
    if dot <= 0 {
        Seq::empty()
    } else {
        name.subrange(dot + 1, name.len() as int)
    }
}

/// The extension of the last component of `path`.
pub open spec fn extension_of(path: Seq<char>) -> Seq<char> {
    extension_of_name(file_name_of(path))
}

/// Where the store of the backup at `root` keeps the file `file_id`: in the
/// directory named by the identifier's first two characters.
pub open spec fn resolved(root: Seq<char>, file_id: Seq<char>) -> Seq<char> {
    joined(joined(root, file_id.take(2)), file_id)
}

/// A name without `/` that is joined to a directory is the last component
/// of the result, and the directory is found again as its parent.
pub proof fn lemma_joined_name(base: Seq<char>, name: Seq<char>)
    requires
        forall|i: int| 0 <= i < name.len() ==> name[i] != '/',
        base.len() > 0,
        base.last() != '/',
    ensures
        file_name_of(joined(base, name)) == name,
        parent_of(joined(base, name)) == base,
{
    let whole = joined(base, name);
    lemma_last_index_of_is(whole, '/', base.len() as int);
}

/// The store is sharded by the first two characters of the identifier: the
/// resolved path of an identifier without `/` has the identifier as its
/// last component, in a directory named by those two characters, directly
/// below the root.
pub proof fn law_resolved_is_sharded(root: Seq<char>, file_id: Seq<char>)
    requires
        file_id.len() >= 2,
        forall|i: int| 0 <= i < file_id.len() ==> file_id[i] != '/',
        root.len() > 0,
        root.last() != '/',
    ensures
        file_name_of(resolved(root, file_id)) == file_id,
        file_name_of(parent_of(resolved(root, file_id))) == file_id.take(2),
        parent_of(parent_of(resolved(root, file_id))) == root,
{
    let shard = file_id.take(2);
    let directory = joined(root, shard);
    lemma_joined_name(root, shard);
    lemma_joined_name(directory, file_id);
}

/// `rel` below `base`.
pub fn join(base: &str, rel: &str) -> (r: String)
    ensures
        r@ == joined(base@, rel@),
{
    let rel_len = rel.unicode_len();
    if rel_len > 0 && rel.get_char(0) == '/' {
        return owned(rel);
    }
    let base_len = base.unicode_len();
    if base_len == 0 || base.get_char(base_len - 1) == '/' {
        followed_by(base, rel)
    } else {
        let mut r = followed_by(base, "/");
        proof {
            reveal_strlit("/");
        }
        r.append(rel);
        r
    }
}

/// The last component of `path`.
pub fn file_name(path: &str) -> (r: String)
    ensures
        r@ == file_name_of(path@),
{
    let v = chars_of(path);
    proof {
        lemma_last_index_of(path@, '/');
    }
    match find_last(&v, '/') {
        Some(i) => slice_of(path, i + 1, v.len()),
        None => {
            owned(path)
        },
    }
}

/// The directory that holds `path`.
pub fn parent(path: &str) -> (r: String)
    ensures
        r@ == parent_of(path@),
{
    let v = chars_of(path);
    proof {
        lemma_last_index_of(path@, '/');
    }
    match find_last(&v, '/') {
        Some(i) => {
            if i == 0 {
                proof {
                    reveal_strlit("/");
                }
                owned("/")
            } else {
                slice_of(path, 0, i)
            }
        },
        None => String::new(),
    }
}

/// The extension of the last component of `path`; empty where it has none.
pub fn extension(path: &str) -> (r: String)
    ensures
        r@ == extension_of(path@),
{
    let name = file_name(path);
    let v = chars_of(name.as_str());
    proof {
        lemma_last_index_of(name@, '.');
    }
    match find_last(&v, '.') {
        Some(i) => {
            if i == 0 {
                String::new()
            } else {
                slice_of(name.as_str(), i + 1, v.len())
            }
        },
        None => String::new(),
    }
}

/// The path of the stored file `file_id` in the backup at `root`. An
/// identifier of fewer than two characters names no file.
pub fn resolve(root: &str, file_id: &str) -> (r: Result<String, ExtractError>)
    ensures
        match r {
            Ok(path) => file_id@.len() >= 2 && path@ == resolved(root@, file_id@),
            Err(e) => file_id@.len() < 2 && e == ExtractError::InvalidFileId,
        },
{
    if file_id.unicode_len() < 2 {
        return Err(ExtractError::InvalidFileId);
    }
    let shard = slice_of(file_id, 0, 2);
    let directory = join(root, shard.as_str());
    Ok(join(directory.as_str(), file_id))
}

} // verus!
