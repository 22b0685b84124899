//! The wrapper's own command-line surface: extracting the subcommand
//! from the raw argument list, and deciding whether an invocation is the
//! wrapper's own setup command or a wrapped call of the real tool.

use vstd::prelude::*;
use vstd::string::StrSliceExecFns;

verus! {

/// The wrapper's own parsed command line.
#[derive(Debug)]
pub struct Cli {
    pub command: Option<Commands>,
}

/// The wrapper's own subcommands. `Setup` installs the wrapper under the
/// real tool's name and prints the search-path prefix that makes the
/// shadowing effective; `path` overrides where the shadowing link goes.
#[derive(Debug)]
pub enum Commands {
    Setup { path: Option<String> },
}

/// How one invocation is dispatched: the wrapper's own setup surface, or
/// wrapping the real tool.
#[derive(Clone, Copy, Debug, PartialEq, Eq, Structural)]
pub enum Mode {
    Setup,
    Wrap,
}

/// A token the wrapper treats as a flag rather than a subcommand.
pub open spec fn is_flag(s: Seq<char>) -> bool {
    s.len() > 0 && s[0] == '-'
}

/// The subcommand of an argument list: its first non-flag token, when
/// one exists. Any string is accepted as a subcommand; it is a naming
/// key for hook lookup, never validated against a known command set.
pub open spec fn subcommand_spec(args: Seq<Seq<char>>) -> Option<Seq<char>>
    decreases args.len(),
{
    if args.len() == 0 {
        None
    } else if !is_flag(args[0]) {
        Some(args[0])
    } else {
        subcommand_spec(args.drop_first())
    }
}

/// Decides whether one token is a flag.
fn token_is_flag(s: &String) -> (r: bool)
    ensures
        r == is_flag(s@),
{
    let t: &str = s.as_str();
    if t.unicode_len() == 0 {
        false
    } else {
        t.get_char(0) == '-'
    }
}

/// Dropping a flag off the front leaves the subcommand unchanged.
proof fn lemma_subcommand_skip_head(args: Seq<Seq<char>>)
    requires
        args.len() > 0,
        is_flag(args[0]),
    ensures
        subcommand_spec(args) == subcommand_spec(args.drop_first()),
{
}

/// Finds the subcommand: the first argument that is not a flag.
pub fn find_subcommand(args: &Vec<String>) -> (r: Option<String>)
    ensures
        match r {
            Some(s) => subcommand_spec(args.deep_view()) == Some(s@),
            None => subcommand_spec(args.deep_view()) is None,
        },
{
    let n: usize = args.len();
    let mut i: usize = 0;
    proof {
        assert(args.deep_view().skip(0) =~= args.deep_view());
    }
    while i < n
        invariant
            i <= n,
            n == args@.len(),
            args.deep_view().len() == args@.len(),
            forall|k: int| 0 <= k < args@.len() ==> args.deep_view()[k] == args@[k]@,
            subcommand_spec(args.deep_view()) == subcommand_spec(
                args.deep_view().skip(i as int),
            ),
        decreases n - i,
    {
        let a: &String = &args[i];
        if !token_is_flag(a) {
            proof {
                assert(args.deep_view().skip(i as int)[0] == args.deep_view()[i as int]);
            }
            return Some(a.clone());
        }
        proof {
            assert(args.deep_view().skip(i as int)[0] == args.deep_view()[i as int]);
            lemma_subcommand_skip_head(args.deep_view().skip(i as int));
            assert(args.deep_view().skip(i as int).drop_first() =~= args.deep_view().skip(
                i as int + 1,
            ));
        }
        i = i + 1;
    }
    proof {
        assert(args.deep_view().skip(n as int) =~= Seq::<Seq<char>>::empty());
    }
    None
}

/// Decides how an invocation is dispatched: the wrapper's own surface
/// exactly when the subcommand is the wrapper's name, and a wrapped tool
/// call — including the no-subcommand case — otherwise.
pub fn invocation_mode(sub: &Option<String>) -> (m: Mode)
    ensures
        m is Setup <==> (sub matches Some(s) && s@ == "prepost"@),
{
    match sub {
        Some(s) => {
            let key: String = "prepost".to_owned();
            if *s == key {
                Mode::Setup
            } else {
                Mode::Wrap
            }
        },
        None => Mode::Wrap,
    }
}

} // verus!
