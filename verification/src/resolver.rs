//! Resolution of hook files for a subcommand: the candidate file names,
//! their priority, and the rule that an absent subcommand resolves to no
//! hook at all.

use vstd::prelude::*;
use vstd::string::StringExecFns;
use crate::paths::is_source_path;
use crate::paths::joined;
use crate::paths::join_path;
use crate::paths::lemma_base_name_of_joined;
use crate::paths::source_ext;

verus! {

/// The hooks directory of an invocation: the conventional directory name
/// inside the working directory.
pub fn hooks_dir_path(cwd: &str) -> (r: String)
    ensures
        r@ == joined(cwd@, "prepost"@),
{
    join_path(cwd, "prepost")
}

/// Whether a hook runs before or after the real tool.
#[derive(Clone, Copy, Debug, PartialEq, Eq, Structural)]
pub enum HookKind {
    Pre,
    Post,
}

/// The file-name prefix that marks a hook of this kind.
pub open spec fn kind_prefix(k: HookKind) -> Seq<char> {
    match k {
        HookKind::Pre => "pre"@,
        HookKind::Post => "post"@,
    }
}

/// The file name a hook of kind `k` for subcommand `sub` carries: the
/// kind's prefix, then the subcommand, then the source extension when
/// the hook is a source file.
pub open spec fn hook_file_name(k: HookKind, sub: Seq<char>, source: bool) -> Seq<char> {
    kind_prefix(k) + sub + if source {
        ".rs"@
    } else {
        Seq::<char>::empty()
    }
}

/// Builds the hook file name for a kind and a subcommand.
pub fn hook_name(k: &HookKind, sub: &str, source: bool) -> (r: String)
    ensures
        r@ == hook_file_name(*k, sub@, source),
{
    let base: String = match k {
        HookKind::Pre => "pre".to_owned(),
        HookKind::Post => "post".to_owned(),
    };
    let named: String = base.concat(sub);
    let r: String = if source {
        named.concat(".rs")
    } else {
        named
    };
    proof {
        assert(r@ =~= hook_file_name(*k, sub@, source));
    }
    r
}

/// The two candidate paths for one hook kind, in priority order: the
/// directly executable form first, the source form second.
pub struct HookCandidates {
    pub executable: String,
    pub source: String,
}

/// Builds both candidate paths for one hook kind inside the hooks
/// directory, when the argument list held a subcommand; an absent
/// subcommand has no candidates.
pub fn hook_candidates(k: &HookKind, sub: &Option<String>, hooks_dir: &str) -> (r: Option<
    HookCandidates,
>)
    ensures
        match *sub {
            Some(ref s) => r matches Some(c) && c.executable@ == joined(
                hooks_dir@,
                hook_file_name(*k, s@, false),
            ) && c.source@ == joined(hooks_dir@, hook_file_name(*k, s@, true)),
            None => r is None,
        },
{
    match sub {
        Some(s) => {
            let exec_name: String = hook_name(k, s.as_str(), false);
            let source_name: String = hook_name(k, s.as_str(), true);
            Some(
                HookCandidates {
                    executable: join_path(hooks_dir, exec_name.as_str()),
                    source: join_path(hooks_dir, source_name.as_str()),
                },
            )
        },
        None => None,
    }
}

/// The resolver and the executor agree on what a source hook is: for a
/// subcommand free of path separators, the source-form candidate path is
/// recognised as a source path, so a hook resolved from it goes through
/// a build step.
pub proof fn lemma_source_candidate_is_source(k: HookKind, sub: Seq<char>, dir: Seq<char>)
    requires
        forall|i: int| 0 <= i < sub.len() ==> sub[i] != '/',
    ensures
        is_source_path(joined(dir, hook_file_name(k, sub, true))),
{
    reveal_strlit("pre");
    reveal_strlit("post");
    reveal_strlit(".rs");
    let name = hook_file_name(k, sub, true);
    assert forall|i: int| 0 <= i < name.len() implies name[i] != '/' by {
        let pl = kind_prefix(k).len() as int;
        if i < pl {
            assert(name[i] == kind_prefix(k)[i]);
        } else if i < pl + sub.len() {
            assert(name[i] == sub[i - pl]);
        } else {
            assert(name[i] == ".rs"@[i - pl - sub.len()]);
        }
    }
    lemma_base_name_of_joined(dir, name);
    let n = name.len() as int;
    assert(name.subrange(n - 3, n) =~= source_ext());
}

/// A hook that resolution settled on: where it lies, and whether it is a
/// source file that still needs a build step.
pub struct ResolvedHook {
    pub path: String,
    pub is_source: bool,
}

/// Settles one hook kind from its candidates and the observation which
/// of them exist as regular files. The executable form wins over the
/// source form; with no candidates, or none existing, there is no hook —
/// absence is not an error.
pub fn resolve_hook(candidates: Option<HookCandidates>, exec_exists: bool, source_exists: bool) -> (
    r: Option<ResolvedHook>
)
    ensures
        match candidates {
            Some(c) => {
                &&& exec_exists ==> (r matches Some(h) && h.path@ == c.executable@
                    && !h.is_source)
                &&& !exec_exists && source_exists ==> (r matches Some(h) && h.path@ == c.source@
                    && h.is_source)
                &&& !exec_exists && !source_exists ==> r is None
            },
            None => r is None,
        },
{
    match candidates {
        Some(c) => {
            if exec_exists {
                Some(ResolvedHook { path: c.executable, is_source: false })
            } else if source_exists {
                Some(ResolvedHook { path: c.source, is_source: true })
            } else {
                None
            }
        },
        None => None,
    }
}

} // verus!
