//! Clippy wrapper with very pedantic configuration: builds the call of
//! `cargo clippy` for a flavor.

use crate::clippy_flavor::ClippyFlavor;
use crate::command::CommandLine;
use crate::lints::{select_lints, selected_lints, ALLOWED_LINTS, DENY_ALWAYS};
use crate::text::{names, texts};
use vstd::prelude::*;
use vstd::string::*;

verus! {

/// The options of the clippy wrapper.
#[derive(Copy, Clone, PartialEq, Eq, Debug, Structural)]
pub struct CliArgs {
    /// Which clippy flavor to use
    pub clippy_flavor: ClippyFlavor,
    /// Whether to only warn for lints
    pub warn: bool,
    /// Whether to run with release
    pub optimize: bool,
}

impl Default for CliArgs {
    /// The options of a call without arguments: the default flavor, lints
    /// denied, no release build.
    fn default() -> (args: CliArgs)
        ensures
            args == (CliArgs {
                clippy_flavor: ClippyFlavor::Development,
                warn: false,
                optimize: false,
            }),
    {
        CliArgs { clippy_flavor: ClippyFlavor::default(), warn: false, optimize: false }
    }
}

/// The flag that sets the level of the selected lints: `-W` to warn, `-D` to
/// deny.
pub open spec fn severity_flag(warn: bool) -> Seq<char> {
    if warn {
        "-W"@
    } else {
        "-D"@
    }
}

/// A list of lints as arguments, each lint behind the same flag:
/// flag, lint, flag, lint, and so on.
pub open spec fn flagged(flag: Seq<char>, lints: Seq<Seq<char>>) -> Seq<Seq<char>> {
    Seq::new(
        2 * lints.len(),
        |i: int|
            if i % 2 == 0 {
                flag
            } else {
                lints[i / 2]
            },
    )
}

/// What stands before the lints: the subcommand, the release flag where it
/// is asked for, and the separator behind which clippy's own arguments
/// follow.
pub open spec fn leading_args(optimize: bool) -> Seq<Seq<char>> {
    if optimize {
        seq!["clippy"@, "--release"@, "--"@]
    } else {
        seq!["clippy"@, "--"@]
    }
}

/// The arguments of `cargo` for the given options: the selected lints at the
/// chosen level, the lints that are always allowed, the compiler's own
/// warnings at the chosen level, and last the lints that are always denied.
pub open spec fn clippy_args(args: CliArgs) -> Seq<Seq<char>> {
    leading_args(args.optimize) + flagged(
        severity_flag(args.warn),
        selected_lints(args.clippy_flavor),
    ) + flagged("-A"@, names(ALLOWED_LINTS@)) + seq![severity_flag(args.warn), "warnings"@]
        + flagged("-D"@, names(DENY_ALWAYS@))
}

/// Appends each lint of a list behind the flag.
fn push_flagged(out: &mut Vec<String>, flag: &str, lints: &[&'static str])
    ensures
        texts(final(out)@) == texts(old(out)@) + flagged(flag@, names(lints@)),
{
    let mut i: usize = 0;
    while i < lints.len()
        invariant
            i <= lints.len(),
            texts(out@) == texts(old(out)@) + flagged(flag@, names(lints@.take(i as int))),
        decreases lints.len() - i,
    {
        let ghost before = out@;
        out.push(String::from_str(flag));
        out.push(String::from_str(lints[i]));
        assert(texts(out@) == texts(before).push(flag@).push(lints@[i as int]@));
        assert(flagged(flag@, names(lints@.take(i + 1))) == flagged(
            flag@,
            names(lints@.take(i as int)),
        ).push(flag@).push(lints@[i as int]@));
        i += 1;
    }
    assert(lints@.take(lints.len() as int) == lints@);
}

/// The arguments with which the wrapper calls `cargo`.
pub fn build_args(args: &CliArgs) -> (list: Vec<String>)
    ensures
        texts(list@) == clippy_args(*args),
{
    let mut list: Vec<String> = Vec::new();
    list.push(String::from_str("clippy"));
    if args.optimize {
        list.push(String::from_str("--release"));
    }
    list.push(String::from_str("--"));
    assert(texts(list@) == leading_args(args.optimize));

    let action_flag = if args.warn {
        "-W"
    } else {
        "-D"
    };
    let lints = select_lints(args.clippy_flavor);
    push_flagged(&mut list, action_flag, lints.as_slice());
    push_flagged(&mut list, "-A", &ALLOWED_LINTS);
    list.push(String::from_str(action_flag));
    list.push(String::from_str("warnings"));
    push_flagged(&mut list, "-D", &DENY_ALWAYS);
    list
}

/// The process that the wrapper spawns: `cargo` with [`clippy_args`].
pub fn command_line(args: &CliArgs) -> (line: CommandLine)
    ensures
        line.program@ == "cargo"@,
        texts(line.args@) == clippy_args(*args),
{
    CommandLine { program: String::from_str("cargo"), args: build_args(args) }
}

/// Every selected lint gets the same level. Lint `i` of the selection stands
/// directly behind the severity flag, which is `-W` exactly when warnings
/// are asked for.
pub proof fn lemma_severity_uniform(args: CliArgs, i: int)
    requires
        0 <= i < selected_lints(args.clippy_flavor).len(),
    ensures
        ({
            let at = leading_args(args.optimize).len() + 2 * i;
            &&& at + 1 < clippy_args(args).len()
            &&& clippy_args(args)[at] == severity_flag(args.warn)
            &&& clippy_args(args)[at + 1] == selected_lints(args.clippy_flavor)[i]
        }),
        severity_flag(args.warn) == "-W"@ <==> args.warn,
{
    reveal_strlit("-W");
    reveal_strlit("-D");
    assert("-W"@[1] != "-D"@[1]);
}

/// The lints that are always denied stay denied. Whatever the options, they
/// end the arguments, each directly behind `-D`.
pub proof fn lemma_deny_always(args: CliArgs, i: int)
    requires
        0 <= i < DENY_ALWAYS@.len(),
    ensures
        ({
            let at = clippy_args(args).len() - 2 * DENY_ALWAYS@.len() + 2 * i;
            &&& 0 <= at
            &&& clippy_args(args)[at] == "-D"@
            &&& clippy_args(args)[at + 1] == DENY_ALWAYS@[i]@
        }),
{
}

} // verus!
