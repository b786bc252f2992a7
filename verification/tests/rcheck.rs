use rcheck::clippy_flavor::ClippyFlavor;
use rcheck::rcheck::{
    build_cmd, command_line, fmt_rclippy, fmt_step, forward, link, steps, CliArgs, Step,
};
use rcheck::rclippy;

const FORMAT: &str = "(cargo fmt --check || (echo 'wrong formatting' && exit 1))";

fn with_flavor(clippy_flavor: ClippyFlavor) -> CliArgs {
    CliArgs { clippy_flavor, ..CliArgs::default() }
}

fn call(args: &CliArgs) -> String {
    let mut out = String::new();
    fmt_rclippy(args, &mut out);
    out
}

#[test]
fn check_defaults() {
    assert_eq!(
        CliArgs::default(),
        CliArgs {
            clippy_flavor: ClippyFlavor::Development,
            clear: false,
            run: false,
            warn: false,
            observe: false,
            optimize: false,
        }
    );
}

#[test]
fn default_invocation() {
    let flavor = ClippyFlavor::default();
    assert_eq!(flavor, ClippyFlavor::Development);
    let args = CliArgs::default();
    assert!(!args.warn);
    assert!(!args.optimize);
    assert_eq!(steps(&args), vec![Step::Greet, Step::Check, Step::Test, Step::Format, Step::Lint]);
    assert_eq!(
        build_cmd(&args),
        format!("echo 'running rcheck'&& cargo check&& cargo test&& {FORMAT}&&rclippy development   ")
    );
    let lint = forward(&args);
    assert_eq!(lint, rclippy::CliArgs::default());
    let line = rclippy::command_line(&lint);
    assert_eq!(line.args[2..4], ["-D", "missing_docs"]);
    assert!(!line.args.iter().any(|arg| arg == "clippy::todo"));
    let line = command_line(&args);
    assert_eq!(line.program, "bash");
    assert_eq!(line.args, vec!["-c".to_string(), build_cmd(&args)]);
}

#[test]
fn pedantic_release_with_run() {
    let flavor = ClippyFlavor::parse("pedantic").unwrap();
    let args = CliArgs { clippy_flavor: flavor, run: true, optimize: true, ..CliArgs::default() };
    assert_eq!(
        steps(&args),
        vec![Step::Greet, Step::Check, Step::Test, Step::Format, Step::Lint, Step::Run]
    );
    assert_eq!(
        build_cmd(&args),
        format!(
            "echo 'running rcheck'&& cargo check --release&& cargo test --release&& {FORMAT}\
             &&rclippy pedantic  -O && cargo run --release"
        )
    );
    let lint = forward(&args);
    assert_eq!(
        lint,
        rclippy::CliArgs { clippy_flavor: ClippyFlavor::Pedantic, warn: false, optimize: true }
    );
    let line = rclippy::command_line(&lint);
    assert_eq!(line.args[..5], ["clippy", "--release", "--", "-D", "missing_docs"]);
    assert!(line.args.windows(2).any(|pair| pair == ["-D", "clippy::todo"]));
    assert!(line.args.windows(2).any(|pair| pair == ["-D", "clippy::dbg_macro"]));
}

#[test]
fn prototype_warn() {
    let flavor = ClippyFlavor::parse("prototype").unwrap();
    let args = CliArgs { clippy_flavor: flavor, warn: true, ..CliArgs::default() };
    assert_eq!(
        build_cmd(&args),
        format!("echo 'running rcheck'&& cargo check&& cargo test&& {FORMAT}&&rclippy prototype -w  ")
    );
    let lint = forward(&args);
    assert_eq!(
        lint,
        rclippy::CliArgs { clippy_flavor: ClippyFlavor::Prototype, warn: true, optimize: false }
    );
    assert_eq!(
        rclippy::build_args(&lint),
        vec![
            "clippy",
            "--",
            "-A",
            "clippy::must_use_candidate",
            "-A",
            "clippy::needless_pass_by_value",
            "-A",
            "clippy::module_name_repetitions",
            "-A",
            "clippy::enum_variant_names",
            "-W",
            "warnings",
            "-D",
            "non_ascii_idents",
        ]
    );
}

#[test]
fn unknown_flavor_token() {
    let parsed = ClippyFlavor::parse("strict");
    assert!(parsed.is_err());
    assert_eq!(parsed.unwrap_err().token, "strict");
}

#[test]
fn clear_comes_after_the_greeting() {
    let args = CliArgs { clear: true, ..CliArgs::default() };
    assert_eq!(
        steps(&args),
        vec![Step::Greet, Step::Clear, Step::Check, Step::Test, Step::Format, Step::Lint]
    );
    assert_eq!(
        build_cmd(&args),
        format!(
            "echo 'running rcheck'&&clear&& cargo check&& cargo test&& {FORMAT}\
             &&rclippy development   "
        )
    );
}

#[test]
fn all_flags_at_once() {
    let args = CliArgs {
        clippy_flavor: ClippyFlavor::Pedantic,
        clear: true,
        run: true,
        warn: true,
        observe: true,
        optimize: true,
    };
    assert_eq!(
        steps(&args),
        vec![
            Step::Greet,
            Step::Clear,
            Step::Check,
            Step::Test,
            Step::Format,
            Step::Lint,
            Step::Run
        ]
    );
    let text = format!(
        "echo 'running rcheck'&&clear&& cargo check --release&& cargo test --release&& \
         {FORMAT}&&rclippy pedantic -w  && cargo run --release"
    );
    assert_eq!(build_cmd(&args), text);
    let line = command_line(&args);
    assert_eq!(line.program, "cargo");
    assert_eq!(line.args, vec!["watch", "--", "bash", "-c", text.as_str()]);
}

#[test]
fn step_commands() {
    let plain = CliArgs::default();
    let release = CliArgs { optimize: true, ..CliArgs::default() };
    let text = |step: Step, args: &CliArgs| {
        let mut out = String::new();
        fmt_step(step, args, &mut out);
        out
    };
    assert_eq!(text(Step::Greet, &plain), "echo 'running rcheck'");
    assert_eq!(text(Step::Greet, &release), "echo 'running rcheck'");
    assert_eq!(text(Step::Clear, &plain), "clear");
    assert_eq!(text(Step::Clear, &release), "clear");
    assert_eq!(text(Step::Check, &plain), "cargo check");
    assert_eq!(text(Step::Check, &release), "cargo check --release");
    assert_eq!(text(Step::Test, &plain), "cargo test");
    assert_eq!(text(Step::Test, &release), "cargo test --release");
    assert_eq!(text(Step::Format, &plain), FORMAT);
    assert_eq!(text(Step::Format, &release), FORMAT);
    assert_eq!(text(Step::Lint, &plain), "rclippy development   ");
    assert_eq!(text(Step::Lint, &release), "rclippy development  -O ");
    assert_eq!(text(Step::Run, &plain), "cargo run ");
    assert_eq!(text(Step::Run, &release), "cargo run --release");
}

#[test]
fn rclippy_call_for_each_flavor() {
    assert_eq!(call(&with_flavor(ClippyFlavor::Pedantic)), "rclippy pedantic   ");
    assert_eq!(call(&with_flavor(ClippyFlavor::Development)), "rclippy development   ");
    assert_eq!(call(&with_flavor(ClippyFlavor::Prototype)), "rclippy prototype   ");
}

#[test]
fn rclippy_call_with_flags() {
    let warn = CliArgs { warn: true, ..CliArgs::default() };
    let optimize = CliArgs { optimize: true, ..CliArgs::default() };
    let both = CliArgs { warn: true, optimize: true, ..CliArgs::default() };
    assert_eq!(call(&warn), "rclippy development -w  ");
    assert_eq!(call(&optimize), "rclippy development  -O ");
    assert_eq!(call(&both), "rclippy development -w -O ");
}

#[test]
fn rclippy_call_ignores_clear_and_run() {
    let args = CliArgs { clear: true, run: true, ..CliArgs::default() };
    assert_eq!(call(&args), call(&CliArgs::default()));
}

#[test]
fn fmt_rclippy_appends() {
    let mut out = String::from("echo hi&&");
    fmt_rclippy(&CliArgs::default(), &mut out);
    assert_eq!(out, "echo hi&&rclippy development   ");
    fmt_rclippy(&with_flavor(ClippyFlavor::Prototype), &mut out);
    assert_eq!(out, "echo hi&&rclippy development   rclippy prototype   ");
}

#[test]
fn watching_drops_optimize_for_the_lint_step() {
    for flavor in [ClippyFlavor::Pedantic, ClippyFlavor::Development, ClippyFlavor::Prototype] {
        for warn in [false, true] {
            for optimize in [false, true] {
                let args = CliArgs {
                    clippy_flavor: flavor,
                    warn,
                    observe: true,
                    optimize,
                    ..CliArgs::default()
                };
                assert!(!forward(&args).optimize);
                let text = call(&args);
                assert!(!text.contains("-O"));
                assert!(!text.contains('O'));
                assert_eq!(text, call(&CliArgs { optimize: false, ..args }));
                let lint = rclippy::build_args(&forward(&args));
                assert!(!lint.iter().any(|arg| arg == "--release"));
            }
        }
    }
}

#[test]
fn watching_keeps_optimize_for_cargo() {
    let args = CliArgs { observe: true, optimize: true, run: true, ..CliArgs::default() };
    assert_eq!(
        build_cmd(&args),
        format!(
            "echo 'running rcheck'&& cargo check --release&& cargo test --release&& {FORMAT}\
             &&rclippy development   && cargo run --release"
        )
    );
}

#[test]
fn optimize_is_forwarded_without_watching() {
    let args = CliArgs { optimize: true, ..CliArgs::default() };
    assert!(forward(&args).optimize);
    assert!(call(&args).contains(" -O "));
}

#[test]
fn forward_passes_flavor_and_level() {
    for flavor in [ClippyFlavor::Pedantic, ClippyFlavor::Development, ClippyFlavor::Prototype] {
        for warn in [false, true] {
            let args = CliArgs { clippy_flavor: flavor, warn, ..CliArgs::default() };
            assert_eq!(
                forward(&args),
                rclippy::CliArgs { clippy_flavor: flavor, warn, optimize: false }
            );
        }
    }
}

#[test]
fn watch_hands_the_chain_to_cargo_watch() {
    let args = CliArgs { observe: true, ..CliArgs::default() };
    let line = command_line(&args);
    assert_eq!(line.program, "cargo");
    assert_eq!(line.args.len(), 5);
    assert_eq!(line.args[..4], ["watch", "--", "bash", "-c"]);
    assert_eq!(line.args[4], build_cmd(&args));
}

#[test]
fn chain_is_run_by_the_shell() {
    let args = CliArgs { run: true, ..CliArgs::default() };
    let line = command_line(&args);
    assert_eq!(line.program, "bash");
    assert_eq!(line.args.len(), 2);
    assert_eq!(line.args[0], "-c");
    assert_eq!(line.args[1], build_cmd(&args));
    assert!(line.args[1].ends_with("   && cargo run "));
}

#[test]
fn chain_has_one_separator_less_than_steps() {
    for clear in [false, true] {
        for run in [false, true] {
            let args = CliArgs { clear, run, ..CliArgs::default() };
            let count = steps(&args).len();
            assert_eq!(count, 5 + clear as usize + run as usize);
            // the format step holds one `&&` of its own
            assert_eq!(build_cmd(&args).matches("&&").count(), count - 1 + 1);
        }
    }
}

#[test]
fn links_between_steps() {
    assert_eq!(link(Step::Clear), "&&");
    assert_eq!(link(Step::Lint), "&&");
    assert_eq!(link(Step::Check), "&& ");
    assert_eq!(link(Step::Test), "&& ");
    assert_eq!(link(Step::Format), "&& ");
    assert_eq!(link(Step::Run), "&& ");
    assert_eq!(link(Step::Greet), "&& ");
}

#[test]
fn chain_calls_rclippy_once_as_fmt_rclippy_writes_it() {
    for flavor in [ClippyFlavor::Pedantic, ClippyFlavor::Development, ClippyFlavor::Prototype] {
        for bits in 0..32u8 {
            let args = CliArgs {
                clippy_flavor: flavor,
                clear: bits & 1 != 0,
                run: bits & 2 != 0,
                warn: bits & 4 != 0,
                observe: bits & 8 != 0,
                optimize: bits & 16 != 0,
            };
            let text = build_cmd(&args);
            let lint = call(&args);
            assert!(text.contains(&format!("&&{lint}")));
            assert!(text.contains(&format!("{FORMAT}&&{lint}")));
            assert_eq!(text.matches("rclippy ").count(), 1);
            if args.run {
                assert!(text.contains(&format!("&&{lint}&& cargo run ")));
            } else {
                assert!(text.ends_with(&format!("&&{lint}")));
            }
        }
    }
}

#[test]
fn run_ends_in_a_blank_or_the_release_flag() {
    let plain = CliArgs { run: true, ..CliArgs::default() };
    let release = CliArgs { run: true, optimize: true, ..CliArgs::default() };
    assert!(build_cmd(&plain).ends_with("&& cargo run "));
    assert!(build_cmd(&release).ends_with("&& cargo run --release"));
}
