//! Wrapper for a small build pipeline: chains the usual checks of a crate
//! into one shell command, which can be run once or on every file change.

use crate::clippy_flavor::ClippyFlavor;
use crate::command::CommandLine;
use crate::rclippy;
use crate::text::texts;
use vstd::prelude::*;
use vstd::string::*;

verus! {

/// The options of the check wrapper.
#[derive(Copy, Clone, PartialEq, Eq, Debug, Structural)]
pub struct CliArgs {
    /// Which clippy flavor to use
    pub clippy_flavor: ClippyFlavor,
    /// Clear the terminal before running
    pub clear: bool,
    /// Whether to also execute `cargo run` at the end
    pub run: bool,
    /// Whether rclippy should only warn or deny, deny by default
    pub warn: bool,
    /// Rerun on file changes, overrides `optimize` for rclippy
    pub observe: bool,
    /// Whether to run this with release
    pub optimize: bool,
}

impl Default for CliArgs {
    /// The options of a call without arguments: the default flavor and no
    /// flag set.
    fn default() -> (args: CliArgs)
        ensures
            args == (CliArgs {
                clippy_flavor: ClippyFlavor::Development,
                clear: false,
                run: false,
                warn: false,
                observe: false,
                optimize: false,
            }),
    {
        CliArgs {
            clippy_flavor: ClippyFlavor::default(),
            clear: false,
            run: false,
            warn: false,
            observe: false,
            optimize: false,
        }
    }
}

/// One step of the chain.
#[derive(Copy, Clone, PartialEq, Eq, Debug, Structural)]
pub enum Step {
    /// Says which wrapper is running
    Greet,
    /// Clears the terminal
    Clear,
    /// `cargo check`
    Check,
    /// `cargo test`
    Test,
    /// `cargo fmt --check`, with a message where the formatting is off
    Format,
    /// The clippy wrapper
    Lint,
    /// `cargo run`
    Run,
}

/// The steps for the given options, in the order in which they run. A
/// standalone `cargo check` always comes before the tests, so that no test
/// is built from code that does not compile. The terminal is cleared only
/// where that is asked for, and the crate is run last and only on demand.
pub open spec fn chain(args: CliArgs) -> Seq<Step> {
    seq![Step::Greet] + (if args.clear {
        seq![Step::Clear]
    } else {
        seq![]
    }) + seq![Step::Check, Step::Test, Step::Format, Step::Lint] + (if args.run {
        seq![Step::Run]
    } else {
        seq![]
    })
}

/// The options that the chain hands to the clippy wrapper. Flavor and level
/// are passed on. A release build is passed on too, except when files are
/// watched: rerunning on every change and a release build do not go
/// together, and watching wins.
pub open spec fn forwarded(args: CliArgs) -> rclippy::CliArgs {
    rclippy::CliArgs {
        clippy_flavor: args.clippy_flavor,
        warn: args.warn,
        optimize: args.optimize && !args.observe,
    }
}

/// The call of the clippy wrapper with the given options: the binary, the
/// flavor, `-w` and `-O`, each followed by a space. A flag that is not set
/// leaves its space behind.
pub open spec fn rclippy_call(lint: rclippy::CliArgs) -> Seq<char> {
    "rclippy "@ + lint.clippy_flavor.name() + " "@ + (if lint.warn {
        "-w"@
    } else {
        ""@
    }) + " "@ + (if lint.optimize {
        "-O"@
    } else {
        ""@
    }) + " "@
}

/// What follows `cargo check` and `cargo test`: the release flag behind a
/// blank, where a release build is asked for.
pub open spec fn release_flag(optimize: bool) -> Seq<char> {
    if optimize {
        " --release"@
    } else {
        ""@
    }
}

/// The shell command of one step. `cargo run` always ends in a blank, behind
/// which the release flag follows where a release build is asked for.
pub open spec fn step_text(step: Step, args: CliArgs) -> Seq<char> {
    match step {
        Step::Greet => "echo 'running rcheck'"@,
        Step::Clear => "clear"@,
        Step::Check => "cargo check"@ + release_flag(args.optimize),
        Step::Test => "cargo test"@ + release_flag(args.optimize),
        Step::Format => "(cargo fmt --check || (echo 'wrong formatting' && exit 1))"@,
        Step::Lint => rclippy_call(forwarded(args)),
        Step::Run => "cargo run "@ + (if args.optimize {
            "--release"@
        } else {
            ""@
        }),
    }
}

/// What joins a step to the steps before it. The terminal is cleared and the
/// clippy wrapper is called directly behind `&&`; before every other step a
/// blank follows the `&&`. No blank stands before the `&&`.
pub open spec fn step_link(step: Step) -> Seq<char> {
    match step {
        Step::Clear => "&&"@,
        Step::Lint => "&&"@,
        _ => "&& "@,
    }
}

/// The commands of the given steps as one shell command. Each step but the
/// first stands behind its [`step_link`], so that it runs only if all steps
/// before it succeeded.
pub open spec fn and_chain(steps: Seq<Step>, args: CliArgs) -> Seq<char>
    decreases steps.len(),
{
    if steps.len() == 0 {
        Seq::empty()
    } else if steps.len() == 1 {
        step_text(steps[0], args)
    } else {
        and_chain(steps.drop_last(), args) + step_link(steps.last()) + step_text(steps.last(), args)
    }
}

/// The options that the chain hands to the clippy wrapper.
pub fn forward(args: &CliArgs) -> (lint: rclippy::CliArgs)
    ensures
        lint == forwarded(*args),
{
    rclippy::CliArgs {
        clippy_flavor: args.clippy_flavor,
        warn: args.warn,
        optimize: args.optimize && !args.observe,
    }
}

/// The steps for the given options, in the order in which they run.
pub fn steps(args: &CliArgs) -> (list: Vec<Step>)
    ensures
        list@ == chain(*args),
{
    let mut list: Vec<Step> = Vec::new();
    list.push(Step::Greet);
    if args.clear {
        list.push(Step::Clear);
    }
    list.push(Step::Check);
    list.push(Step::Test);
    list.push(Step::Format);
    list.push(Step::Lint);
    if args.run {
        list.push(Step::Run);
    }
    list
}

/// Format a call to the rclippy binary
pub fn fmt_rclippy(cli_args: &CliArgs, out: &mut String)
    ensures
        final(out)@ == old(out)@ + rclippy_call(forwarded(*cli_args)),
{
    let lint = forward(cli_args);
    out.append("rclippy ");
    out.append(lint.clippy_flavor.as_str());
    out.append(" ");
    out.append(
        if lint.warn {
            "-w"
        } else {
            ""
        },
    );
    out.append(" ");
    out.append(
        if lint.optimize {
            "-O"
        } else {
            ""
        },
    );
    out.append(" ");
}

/// What joins a step to the steps before it.
pub fn link(step: Step) -> (text: &'static str)
    ensures
        text@ == step_link(step),
{
    match step {
        Step::Clear => "&&",
        Step::Lint => "&&",
        _ => "&& ",
    }
}

/// Appends the shell command of one step.
pub fn fmt_step(step: Step, cli_args: &CliArgs, out: &mut String)
    ensures
        final(out)@ == old(out)@ + step_text(step, *cli_args),
{
    let release = if cli_args.optimize {
        " --release"
    } else {
        ""
    };
    match step {
        Step::Greet => out.append("echo 'running rcheck'"),
        Step::Clear => out.append("clear"),
        Step::Check => {
            out.append("cargo check");
            out.append(release);
        },
        Step::Test => {
            out.append("cargo test");
            out.append(release);
        },
        Step::Format => out.append("(cargo fmt --check || (echo 'wrong formatting' && exit 1))"),
        Step::Lint => fmt_rclippy(cli_args, out),
        Step::Run => {
            out.append("cargo run ");
            out.append(
                if cli_args.optimize {
                    "--release"
                } else {
                    ""
                },
            );
        },
    }
}

/// Build the command to run from the given command line args
pub fn build_cmd(cli_args: &CliArgs) -> (run_arg: String)
    ensures
        run_arg@ == and_chain(chain(*cli_args), *cli_args),
{
    let list = steps(cli_args);
    let mut run_arg = String::new();
    let mut i: usize = 0;
    while i < list.len()
        invariant
            i <= list.len(),
            run_arg@ == and_chain(list@.take(i as int), *cli_args),
        decreases list.len() - i,
    {
        if i > 0 {
            run_arg.append(link(list[i]));
        }
        fmt_step(list[i], cli_args, &mut run_arg);
        assert(list@.take(i + 1).drop_last() == list@.take(i as int));
        i += 1;
    }
    assert(list@.take(list.len() as int) == list@);
    run_arg
}

/// What the process is called with: the shell runs the chain once, or
/// `cargo watch` has the shell run it again on every change of a file.
pub open spec fn spawn_args(args: CliArgs) -> Seq<Seq<char>> {
    if args.observe {
        seq!["watch"@, "--"@, "bash"@, "-c"@, and_chain(chain(args), args)]
    } else {
        seq!["-c"@, and_chain(chain(args), args)]
    }
}

/// The process that the wrapper spawns: `bash` with the chain, or, where
/// files are watched, `cargo` with [`spawn_args`].
pub fn command_line(cli_args: &CliArgs) -> (line: CommandLine)
    ensures
        line.program@ == if cli_args.observe {
            "cargo"@
        } else {
            "bash"@
        },
        texts(line.args@) == spawn_args(*cli_args),
{
    let run_cmd = build_cmd(cli_args);
    let mut args: Vec<String> = Vec::new();
    if cli_args.observe {
        args.push(String::from_str("watch"));
        args.push(String::from_str("--"));
        args.push(String::from_str("bash"));
        args.push(String::from_str("-c"));
        args.push(run_cmd);
        CommandLine { program: String::from_str("cargo"), args }
    } else {
        args.push(String::from_str("-c"));
        args.push(run_cmd);
        CommandLine { program: String::from_str("bash"), args }
    }
}

/// Watching wins over a release build. While files are watched, the call of
/// the clippy wrapper is the same whether or not a release build was asked
/// for, and the letter of the release flag occurs nowhere in it. Without
/// watching, the clippy wrapper builds as the chain does.
pub proof fn lemma_watch_drops_optimize(args: CliArgs)
    ensures
        forwarded(args).clippy_flavor == args.clippy_flavor,
        forwarded(args).warn == args.warn,
        !args.observe ==> forwarded(args).optimize == args.optimize,
        args.observe ==> !forwarded(args).optimize,
        args.observe ==> rclippy_call(forwarded(args)) == rclippy_call(
            forwarded(CliArgs { optimize: false, ..args }),
        ),
        args.observe ==> !rclippy_call(forwarded(args)).contains('O'),
{
    if args.observe {
        let call = rclippy_call(forwarded(args));
        reveal_strlit("rclippy ");
        reveal_strlit("pedantic");
        reveal_strlit("development");
        reveal_strlit("prototype");
        reveal_strlit(" ");
        reveal_strlit("-w");
        reveal_strlit("");
        assert forall|i: int| 0 <= i < call.len() implies call[i] != 'O' by {}
    }
}

/// The chain calls the clippy wrapper exactly once, as its last step but for
/// the run. The call stands directly behind `&&`, as [`fmt_rclippy`] writes
/// it, and only the run of the crate follows it.
pub proof fn lemma_chain_calls_rclippy(args: CliArgs)
    ensures
        ({
            let at = if args.clear {
                5int
            } else {
                4int
            };
            &&& chain(args)[at] == Step::Lint
            &&& forall|i: int| 0 <= i < chain(args).len() && i != at ==> chain(args)[i] != Step::Lint
            &&& and_chain(chain(args), args) == and_chain(chain(args).take(at), args) + "&&"@
                + rclippy_call(forwarded(args)) + (if args.run {
                "&& "@ + step_text(Step::Run, args)
            } else {
                Seq::empty()
            })
        }),
{
    let steps = chain(args);
    let at = if args.clear {
        5int
    } else {
        4int
    };
    let through = steps.take(at + 1);
    let call = "&&"@ + rclippy_call(forwarded(args));
    assert(through.drop_last() == steps.take(at));
    assert(through.last() == Step::Lint);
    assert(and_chain(through, args) == and_chain(steps.take(at), args) + call);
    if args.run {
        assert(steps.drop_last() == through);
        assert(steps.last() == Step::Run);
        assert(and_chain(steps, args) == and_chain(steps.take(at), args) + call + ("&& "@
            + step_text(Step::Run, args)));
    } else {
        assert(steps == through);
        assert(and_chain(steps, args) == and_chain(steps.take(at), args) + call
            + Seq::<char>::empty());
    }
}

/// The chain has a fixed shape. It greets, checks, tests, checks the
/// formatting and lints, in this order and whatever the options. The
/// terminal is cleared, directly after the greeting, exactly when that is
/// asked for, and the crate is run, as the last step, exactly when that is
/// asked for.
pub proof fn lemma_chain_shape(args: CliArgs)
    ensures
        chain(args).len() == 5 + (if args.clear {
            1int
        } else {
            0int
        }) + (if args.run {
            1int
        } else {
            0int
        }),
        chain(args).first() == Step::Greet,
        chain(args).contains(Step::Clear) <==> args.clear,
        args.clear ==> chain(args)[1] == Step::Clear,
        chain(args).contains(Step::Run) <==> args.run,
        args.run ==> chain(args).last() == Step::Run,
        ({
            let at = if args.clear {
                2int
            } else {
                1int
            };
            chain(args).subrange(at, at + 4) == seq![
                Step::Check,
                Step::Test,
                Step::Format,
                Step::Lint,
            ]
        }),
{
}

} // verus!
