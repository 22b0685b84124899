//! Locating the real tool on the search path. The wrapper shadows the
//! real tool's name, so a naive lookup would find the wrapper itself;
//! every candidate equal to the wrapper's own path is skipped.

use vstd::prelude::*;
use crate::paths::joined;
use crate::paths::join_path;

verus! {

/// One search-path entry's candidate: the path formed from the entry and
/// the tool's name, and whether that path exists as a regular file.
pub struct ToolCandidate {
    pub path: String,
    pub is_file: bool,
}

/// A candidate qualifies when it exists as a regular file and is not the
/// wrapper's own executable path.
pub open spec fn qualifies(c: ToolCandidate, self_path: Seq<char>) -> bool {
    c.is_file && c.path@ != self_path
}

/// The tool the locator settles on: the first qualifying candidate in
/// search-path order, or none.
pub open spec fn selected_tool(cands: Seq<ToolCandidate>, self_path: Seq<char>) -> Option<
    Seq<char>,
>
    decreases cands.len(),
{
    if cands.len() == 0 {
        None
    } else if qualifies(cands[0], self_path) {
        Some(cands[0].path@)
    } else {
        selected_tool(cands.drop_first(), self_path)
    }
}

/// Builds the candidate tool path inside one search-path directory.
pub fn tool_candidate_path(dir: &str, tool_name: &str) -> (r: String)
    ensures
        r@ == joined(dir@, tool_name@),
{
    join_path(dir, tool_name)
}

/// Dropping a non-qualifying head leaves the selection unchanged.
proof fn lemma_selected_skip_head(cands: Seq<ToolCandidate>, self_path: Seq<char>)
    requires
        cands.len() > 0,
        !qualifies(cands[0], self_path),
    ensures
        selected_tool(cands, self_path) == selected_tool(cands.drop_first(), self_path),
{
}

/// Picks the real tool: the first candidate, in search-path order, that
/// exists as a regular file and is not the wrapper's own path. `None`
/// when no candidate qualifies — the wrapper cannot run without the real
/// tool, so its caller must treat that as fatal.
pub fn select_tool(candidates: &Vec<ToolCandidate>, self_path: &String) -> (r: Option<String>)
    ensures
        match r {
            Some(p) => selected_tool(candidates@, self_path@) == Some(p@),
            None => selected_tool(candidates@, self_path@) is None,
        },
{
    let n: usize = candidates.len();
    let mut i: usize = 0;
    proof {
        assert(candidates@.skip(0) =~= candidates@);
    }
    while i < n
        invariant
            i <= n,
            n == candidates@.len(),
            selected_tool(candidates@, self_path@) == selected_tool(
                candidates@.skip(i as int),
                self_path@,
            ),
        decreases n - i,
    {
        let c: &ToolCandidate = &candidates[i];
        if c.is_file && !(c.path == *self_path) {
            proof {
                assert(candidates@.skip(i as int)[0] == candidates@[i as int]);
            }
            return Some(c.path.clone());
        }
        proof {
            assert(candidates@.skip(i as int)[0] == candidates@[i as int]);
            lemma_selected_skip_head(candidates@.skip(i as int), self_path@);
            assert(candidates@.skip(i as int).drop_first() =~= candidates@.skip(i as int + 1));
        }
        i = i + 1;
    }
    proof {
        assert(candidates@.skip(n as int) =~= Seq::<ToolCandidate>::empty());
    }
    None
}

/// The self-recursion guard: whatever the search path holds — even when
/// the wrapper's own path appears first, or several times, under the
/// real tool's name — a selected tool path is never the wrapper's own
/// executable path.
pub proof fn lemma_selected_never_self(cands: Seq<ToolCandidate>, self_path: Seq<char>)
    ensures
        selected_tool(cands, self_path) matches Some(p) ==> p != self_path,
    decreases cands.len(),
{
    if cands.len() > 0 && !qualifies(cands[0], self_path) {
        lemma_selected_never_self(cands.drop_first(), self_path);
    }
}

/// The selection is sound and earliest: a selected path belongs to some
/// qualifying candidate before which no candidate qualifies, and a
/// selection fails only when no candidate qualifies at all.
pub proof fn lemma_selected_first_match(cands: Seq<ToolCandidate>, self_path: Seq<char>)
    ensures
        selected_tool(cands, self_path) matches Some(p) ==> exists|i: int|
            0 <= i < cands.len() && qualifies(cands[i], self_path) && p == cands[i].path@
                && forall|j: int| 0 <= j < i ==> !qualifies(cands[j], self_path),
        selected_tool(cands, self_path) is None ==> forall|i: int|
            0 <= i < cands.len() ==> !qualifies(cands[i], self_path),
    decreases cands.len(),
{
    if cands.len() == 0 {
    } else if qualifies(cands[0], self_path) {
        let p = cands[0].path@;
        assert(qualifies(cands[0], self_path) && p == cands[0].path@ && forall|j: int|
            0 <= j < 0 ==> !qualifies(cands[j], self_path));
    } else {
        lemma_selected_first_match(cands.drop_first(), self_path);
        let rest = cands.drop_first();
        if selected_tool(cands, self_path) is Some {
            let p = selected_tool(cands, self_path).unwrap();
            let i = choose|i: int|
                0 <= i < rest.len() && qualifies(rest[i], self_path) && p == rest[i].path@
                    && forall|j: int| 0 <= j < i ==> !qualifies(rest[j], self_path);
            assert(cands[i + 1] == rest[i]);
            assert forall|j: int| 0 <= j < i + 1 implies !qualifies(cands[j], self_path) by {
                if j > 0 {
                    assert(cands[j] == rest[j - 1]);
                }
            }
        } else {
            assert forall|i: int| 0 <= i < cands.len() implies !qualifies(
                cands[i],
                self_path,
            ) by {
                if i > 0 {
                    assert(cands[i] == rest[i - 1]);
                }
            }
        }
    }
}

} // verus!
