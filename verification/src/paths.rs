//! A character-level model of the file paths the wrapper works with:
//! joining a directory and a file name, splitting a path into directory
//! prefix and file-name component, and recognising source-file hooks by
//! their extension.

use vstd::prelude::*;
use vstd::string::StrSliceExecFns;
use vstd::string::StringExecFns;

verus! {

/// The path formed by joining a directory and a file name with the
/// separator.
pub open spec fn joined(dir: Seq<char>, name: Seq<char>) -> Seq<char> {
    dir + seq!['/'] + name
}

/// The file-name component of a path: everything after the last
/// separator, or the whole path when it has none.
pub open spec fn base_name(p: Seq<char>) -> Seq<char>
    decreases p.len(),
{
    if p.len() == 0 {
        p
    } else if p[p.len() - 1] == '/' {
        Seq::<char>::empty()
    } else {
        base_name(p.drop_last()).push(p[p.len() - 1])
    }
}

/// The directory prefix of a path: everything up to and including the
/// last separator, or empty when the path has none.
pub open spec fn dir_prefix(p: Seq<char>) -> Seq<char>
    decreases p.len(),
{
    if p.len() == 0 {
        p
    } else if p[p.len() - 1] == '/' {
        p
    } else {
        dir_prefix(p.drop_last())
    }
}

/// A path is its directory prefix followed by its file name.
pub proof fn lemma_path_split(p: Seq<char>)
    ensures
        dir_prefix(p) + base_name(p) =~= p,
    decreases p.len(),
{
    if p.len() == 0 {
    } else if p[p.len() - 1] == '/' {
    } else {
        lemma_path_split(p.drop_last());
        assert(dir_prefix(p) + base_name(p) =~= (dir_prefix(p.drop_last()) + base_name(
            p.drop_last(),
        )).push(p[p.len() - 1]));
    }
}

/// After the last separator nothing but the file name follows: when `j`
/// is the last separator's index, the file name is exactly the suffix
/// after `j` and the prefix runs through `j`.
pub proof fn lemma_split_at_last_slash(p: Seq<char>, j: int)
    requires
        0 <= j < p.len(),
        p[j] == '/',
        forall|k: int| j < k < p.len() ==> p[k] != '/',
    ensures
        base_name(p) =~= p.subrange(j + 1, p.len() as int),
        dir_prefix(p) =~= p.subrange(0, j + 1),
    decreases p.len(),
{
    if j == p.len() - 1 {
    } else {
        lemma_split_at_last_slash(p.drop_last(), j);
        assert(base_name(p) =~= p.drop_last().subrange(j + 1, p.len() - 1).push(
            p[p.len() - 1],
        ));
        assert(p.drop_last().subrange(j + 1, p.len() - 1).push(p[p.len() - 1]) =~= p.subrange(
            j + 1,
            p.len() as int,
        ));
        assert(dir_prefix(p) =~= p.drop_last().subrange(0, j + 1));
        assert(p.drop_last().subrange(0, j + 1) =~= p.subrange(0, j + 1));
    }
}

/// A path without any separator is all file name.
pub proof fn lemma_split_no_slash(p: Seq<char>)
    requires
        forall|k: int| 0 <= k < p.len() ==> p[k] != '/',
    ensures
        base_name(p) =~= p,
        dir_prefix(p) =~= Seq::<char>::empty(),
    decreases p.len(),
{
    if p.len() == 0 {
    } else {
        lemma_split_no_slash(p.drop_last());
        assert(base_name(p) =~= p.drop_last().push(p[p.len() - 1]));
        assert(p.drop_last().push(p[p.len() - 1]) =~= p);
    }
}

/// Joining a separator-free name onto a directory makes that name the
/// file-name component.
pub proof fn lemma_base_name_of_joined(dir: Seq<char>, name: Seq<char>)
    requires
        forall|k: int| 0 <= k < name.len() ==> name[k] != '/',
    ensures
        base_name(joined(dir, name)) =~= name,
        dir_prefix(joined(dir, name)) =~= dir + seq!['/'],
{
    let p = joined(dir, name);
    let j = dir.len() as int;
    assert(p[j] == '/');
    assert forall|k: int| j < k < p.len() implies p[k] != '/' by {
        assert(p[k] == name[k - j - 1]);
    }
    lemma_split_at_last_slash(p, j);
    assert(p.subrange(j + 1, p.len() as int) =~= name);
    assert(p.subrange(0, j + 1) =~= dir + seq!['/']);
}

/// The suffix that marks a hook as a source file.
pub open spec fn source_ext() -> Seq<char> {
    seq!['.', 'r', 's']
}

/// A file name the executor treats as a source file: it ends in the
/// source extension and keeps a non-empty stem before it.
pub open spec fn is_source_name(name: Seq<char>) -> bool {
    name.len() >= 4 && name.subrange(name.len() - 3, name.len() as int) == source_ext()
}

/// A path whose file-name component is a source file.
pub open spec fn is_source_path(p: Seq<char>) -> bool {
    is_source_name(base_name(p))
}

/// The stem of a source file name: the name with the extension removed.
pub open spec fn stem_of(name: Seq<char>) -> Seq<char> {
    name.subrange(0, name.len() - 3)
}

/// The path of a project manifest sitting beside the given file: its
/// file-name component replaced by the manifest's conventional name.
pub open spec fn sibling_manifest(p: Seq<char>) -> Seq<char> {
    dir_prefix(p) + "Cargo.toml"@
}

/// Joins a directory and a file name with the path separator.
pub fn join_path(dir: &str, name: &str) -> (r: String)
    ensures
        r@ == joined(dir@, name@),
{
    proof {
        reveal_strlit("/");
    }
    let d: String = dir.to_owned();
    let d: String = d.concat("/");
    let r: String = d.concat(name);
    proof {
        assert(r@ =~= joined(dir@, name@));
    }
    r
}

/// Splits a path into its directory prefix and its file-name component;
/// together the two give the path back.
pub fn split_path(p: &str) -> (r: (String, String))
    ensures
        r.0@ == dir_prefix(p@),
        r.1@ == base_name(p@),
        r.0@ + r.1@ == p@,
{
    proof {
        lemma_path_split(p@);
    }
    let n: usize = p.unicode_len();
    let mut last: Option<usize> = None;
    let mut k: usize = 0;
    while k < n
        invariant
            k <= n,
            n == p@.len(),
            match last {
                Some(j) => j < k && p@[j as int] == '/' && forall|t: int|
                    j < t < k ==> p@[t] != '/',
                None => forall|t: int| 0 <= t < k ==> p@[t] != '/',
            },
        decreases n - k,
    {
        if p.get_char(k) == '/' {
            last = Some(k);
        }
        k = k + 1;
    }
    match last {
        Some(j) => {
            proof {
                lemma_split_at_last_slash(p@, j as int);
            }
            let pre: &str = p.substring_char(0, j + 1);
            let name: &str = p.substring_char(j + 1, n);
            (pre.to_owned(), name.to_owned())
        },
        None => {
            proof {
                lemma_split_no_slash(p@);
            }
            let empty: String = String::new();
            proof {
                assert(empty@ =~= dir_prefix(p@));
            }
            (empty, p.to_owned())
        },
    }
}

/// Decides whether a hook path names a source file that needs a build
/// step before it can run.
pub fn path_is_source(p: &str) -> (r: bool)
    ensures
        r == is_source_path(p@),
{
    let split: (String, String) = split_path(p);
    let name: &str = split.1.as_str();
    let n: usize = name.unicode_len();
    if n < 4 {
        return false;
    }
    let c1: char = name.get_char(n - 3);
    let c2: char = name.get_char(n - 2);
    let c3: char = name.get_char(n - 1);
    let r: bool = c1 == '.' && c2 == 'r' && c3 == 's';
    proof {
        let m = name@;
        let tail = m.subrange(m.len() - 3, m.len() as int);
        assert(tail[0] == m[m.len() - 3]);
        assert(tail[1] == m[m.len() - 2]);
        assert(tail[2] == m[m.len() - 1]);
        if c1 == '.' && c2 == 'r' && c3 == 's' {
            assert(tail =~= source_ext());
        }
    }
    r
}

/// The name of the binary a source hook builds into: the file name's
/// stem.
pub fn source_stem(p: &str) -> (r: String)
    requires
        is_source_path(p@),
    ensures
        r@ == stem_of(base_name(p@)),
{
    let split: (String, String) = split_path(p);
    let name: &str = split.1.as_str();
    let n: usize = name.unicode_len();
    let stem: &str = name.substring_char(0, n - 3);
    stem.to_owned()
}

/// The path of the project manifest that would sit beside the given
/// file.
pub fn manifest_beside(p: &str) -> (r: String)
    ensures
        r@ == sibling_manifest(p@),
{
    let split: (String, String) = split_path(p);
    split.0.concat("Cargo.toml")
}

} // verus!
