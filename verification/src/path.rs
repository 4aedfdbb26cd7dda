//! Paths as the host's file system has them: byte strings whose components
//! are parted by `/`.

use vstd::prelude::*;

verus! {

/// The byte that parts the components of a path.
pub const SEPARATOR: u8 = 47;

/// The length of the directory part of a path: everything up to and
/// including its last separator, or nothing where it has none.
pub open spec fn dir_len(path: Seq<u8>) -> nat
    decreases path.len(),
{
    if path.len() == 0 {
        0
    } else if path.last() == SEPARATOR {
        path.len()
    } else {
        dir_len(path.drop_last())
    }
}

/// The directory part of a path, with its closing separator.
pub open spec fn directory_part(path: Seq<u8>) -> Seq<u8> {
    path.subrange(0, dir_len(path) as int)
}

/// The last component of a path: what follows its last separator.
pub open spec fn file_name(path: Seq<u8>) -> Seq<u8> {
    path.subrange(dir_len(path) as int, path.len() as int)
}

/// The path of the entry `name` in the directory that holds `path`.
pub open spec fn sibling(path: Seq<u8>, name: Seq<u8>) -> Seq<u8> {
    directory_part(path) + name
}

/// Whether a byte string holds no separator.
pub open spec fn is_plain(name: Seq<u8>) -> bool {
    forall|i: int| 0 <= i < name.len() ==> name[i] != SEPARATOR
}

/// The directory part ends within the path, and ends in a separator unless
/// it is empty; nothing after it is a separator.
pub proof fn lemma_dir_len(path: Seq<u8>)
    ensures
        dir_len(path) <= path.len(),
        dir_len(path) > 0 ==> path[dir_len(path) - 1] == SEPARATOR,
        forall|i: int| dir_len(path) <= i < path.len() ==> path[i] != SEPARATOR,
    decreases path.len(),
{
    if path.len() > 0 && path.last() != SEPARATOR {
        let front = path.drop_last();
        lemma_dir_len(front);
        assert forall|i: int| dir_len(path) <= i < path.len() implies path[i] != SEPARATOR by {
            if i < front.len() {
                assert(front[i] == path[i]);
            }
        }
    }
}

/// A path is its directory part followed by its last component.
pub proof fn lemma_parts_make_path(path: Seq<u8>)
    ensures
        directory_part(path) + file_name(path) == path,
        is_plain(file_name(path)),
{
    lemma_dir_len(path);
    assert(directory_part(path) + file_name(path) =~= path);
}

/// Where a separator stands at `cut - 1` (or `cut` is 0) and none stands from
/// `cut` on, `cut` is the length of the directory part.
pub proof fn lemma_dir_len_is(path: Seq<u8>, cut: int)
    requires
        0 <= cut <= path.len(),
        cut > 0 ==> path[cut - 1] == SEPARATOR,
        forall|i: int| cut <= i < path.len() ==> path[i] != SEPARATOR,
    ensures
        dir_len(path) == cut,
    decreases path.len(),
{
    if path.len() > 0 && path.last() != SEPARATOR {
        lemma_dir_len_is(path.drop_last(), cut);
    }
}

/// The length of the directory part of a path.
pub fn split_point(path: &Vec<u8>) -> (cut: usize)
    ensures
        cut == dir_len(path@),
        cut <= path@.len(),
{
    let mut cut: usize = path.len();
    while cut > 0 && path[cut - 1] != SEPARATOR
        invariant
            cut <= path@.len(),
            forall|i: int| cut <= i < path@.len() ==> path@[i] != SEPARATOR,
        decreases cut,
    {
        cut = cut - 1;
    }
    proof {
        lemma_dir_len_is(path@, cut as int);
    }
    cut
}

/// Whether the last component of `path` is `name`.
pub fn is_named(path: &Vec<u8>, name: &Vec<u8>) -> (same: bool)
    ensures
        same == (file_name(path@) == name@),
{
    let cut: usize = split_point(path);
    if path.len() - cut != name.len() {
        return false;
    }
    let mut i: usize = 0;
    while i < name.len()
        invariant
            cut <= path@.len(),
            path@.len() - cut == name@.len(),
            path@.len() <= usize::MAX,
            i <= name@.len(),
            cut == dir_len(path@),
            forall|k: int| 0 <= k < i ==> path@[cut + k] == name@[k],
        decreases name@.len() - i,
    {
        if path[cut + i] != name[i] {
            assert(file_name(path@)[i as int] != name@[i as int]);
            return false;
        }
        i = i + 1;
    }
    assert(file_name(path@) =~= name@);
    true
}

/// The path of the entry `name` beside `path`: the directory part of `path`
/// followed by `name`. A path without a directory part gives the bare name.
pub fn sibling_path(path: &Vec<u8>, name: &Vec<u8>) -> (beside: Vec<u8>)
    ensures
        beside@ == sibling(path@, name@),
        dir_len(path@) == 0 ==> beside@ == name@,
{
    let cut: usize = split_point(path);
    let mut beside: Vec<u8> = Vec::new();
    let mut i: usize = 0;
    while i < cut
        invariant
            i <= cut <= path@.len(),
            beside@ == path@.subrange(0, i as int),
        decreases cut - i,
    {
        beside.push(path[i]);
        assert(beside@ =~= path@.subrange(0, i + 1));
        i = i + 1;
    }
    let mut k: usize = 0;
    while k < name.len()
        invariant
            k <= name@.len(),
            cut == dir_len(path@),
            beside@ == directory_part(path@) + name@.subrange(0, k as int),
        decreases name@.len() - k,
    {
        beside.push(name[k]);
        assert(beside@ =~= directory_part(path@) + name@.subrange(0, k + 1));
        k = k + 1;
    }
    assert(name@.subrange(0, name@.len() as int) =~= name@);
    assert(dir_len(path@) == 0 ==> sibling(path@, name@) =~= name@);
    beside
}

/// A plain name put beside a path stays in that path's directory, and is
/// the last component of the new path.
pub proof fn lemma_sibling_parts(path: Seq<u8>, name: Seq<u8>)
    requires
        is_plain(name),
    ensures
        directory_part(sibling(path, name)) == directory_part(path),
        file_name(sibling(path, name)) == name,
{
    lemma_dir_len(path);
    let beside = sibling(path, name);
    let cut = dir_len(path) as int;
    assert forall|i: int| cut <= i < beside.len() implies beside[i] != SEPARATOR by {
        assert(beside[i] == name[i - cut]);
    }
    if cut > 0 {
        assert(beside[cut - 1] == path[cut - 1]);
    }
    lemma_dir_len_is(beside, cut);
    assert(directory_part(beside) =~= directory_part(path));
    assert(file_name(beside) =~= name);
}

/// A name other than a path's last component gives another path.
pub proof fn lemma_sibling_differs(path: Seq<u8>, name: Seq<u8>)
    requires
        name != file_name(path),
    ensures
        sibling(path, name) != path,
{
    lemma_dir_len(path);
    if sibling(path, name) == path {
        assert(sibling(path, name).subrange(dir_len(path) as int, path.len() as int) =~= name);
    }
}

} // verus!
