use libtest2::args::ErrorContext;
use libtest2::args::Parser;
use libtest2::builder::Env;
use libtest2::builder::TestOptsBuilder;
use libtest2::case::Case;
use libtest2::case::RunError;
use libtest2::case::Trial;
use libtest2::discover::discover;
use libtest2::event::Elapsed;
use libtest2::event::Event;
use libtest2::harness::crashed;
use libtest2::harness::exit_code;
use libtest2::harness::notifier;
use libtest2::harness::run;
use libtest2::harness::run_state;
use libtest2::harness::unsupported;
use libtest2::harness::Ending;
use libtest2::harness::Renderer;
use libtest2::options::TestOpts;
use libtest2::scheduler::Step;
use libtest2::state::State;

type Runner = Box<dyn Fn(&State) -> Result<(), RunError> + Send + Sync>;

fn trial(name: &str, runner: fn(&State) -> Result<(), RunError>) -> Trial<Runner> {
    Trial::test(name, Box::new(runner))
}

fn text(args: &[&str]) -> Vec<String> {
    args.iter().map(|a| a.to_string()).collect()
}

/// Reads the options from the arguments that follow the name of the binary.
fn options(args: &[&str], env: &Env) -> Result<TestOpts, String> {
    let mut raw = vec!["test".to_string()];
    raw.extend(text(args));
    let mut parser = Parser::new(raw);
    let _bin = parser.next_raw();
    let mut builder = TestOptsBuilder::new();
    while let Some(arg) = parser.next_arg() {
        match builder.parse_next(&mut parser, arg, env) {
            Ok(None) => {}
            Ok(Some(arg)) => {
                let rest = ErrorContext::msg("unexpected argument").unexpected(arg);
                return Err(rest.to_string());
            }
            Err(e) => return Err(e.to_string()),
        }
    }
    builder.finish(env).map_err(|e| e.to_string())
}

fn write(out: &mut String, renderer: &mut Renderer, event: &Event) {
    let styled = renderer.notify(event).expect("the event can be rendered");
    out.push_str(&anstream::adapter::strip_str(&styled).to_string());
}

/// Runs the cases as a test binary would, and returns the exit code and
/// what was written. `workers` stands for the number of processors. Each
/// case runs when it is started; with several workers the reports come in
/// latest first.
fn harness(args: &[&str], cases: Vec<Trial<Runner>>, workers: Option<usize>) -> (i32, String) {
    let env = Env::empty();
    let mut opts = match options(args, &env) {
        Ok(opts) => opts,
        Err(_) => return (exit_code(Ending::Misconfigured), String::new()),
    };
    if opts.test_threads.is_none() {
        opts.test_threads = workers;
    }
    let mut out = String::new();
    let mut renderer = notifier(&opts);
    let mut cases = cases;
    for event in discover(&opts, &mut cases, 0) {
        write(&mut out, &mut renderer, &event);
    }
    if opts.list {
        return (exit_code(Ending::Listed), out);
    }
    let (mut scheduler, opening) = run(&opts, &cases);
    write(&mut out, &mut renderer, &opening);
    assert_eq!(unsupported(&opts), None);
    renderer.threaded(scheduler.is_multithreaded());
    let state = run_state(&opts);
    let mut reports: Vec<(usize, Result<(), RunError>)> = Vec::new();
    loop {
        match scheduler.next_step() {
            Step::Start { index, event } => {
                write(&mut out, &mut renderer, &event);
                reports.push((index, cases[index].run(&state)));
            }
            Step::Wait => {
                let (index, outcome) = reports.pop().expect("a worker reports");
                let event = scheduler
                    .complete(index, &outcome, Elapsed { secs: 0, nanos: 0 })
                    .expect("the case was running");
                write(&mut out, &mut renderer, &event);
            }
            Step::Finish => break,
        }
    }
    let closing = scheduler.finish().expect("the suite can be closed");
    write(&mut out, &mut renderer, &closing);
    (exit_code(Ending::Ran { success: scheduler.success() }), out)
}

/// Whether `actual` reads as `pattern` does, where `[..]` in a line of the
/// pattern stands for any text and a line `...` for any lines.
fn matches(pattern: &str, actual: &str) -> bool {
    let pattern: Vec<&str> = pattern.split('\n').collect();
    let actual: Vec<&str> = actual.split('\n').collect();
    lines_match(&pattern, &actual)
}

fn lines_match(pattern: &[&str], actual: &[&str]) -> bool {
    match pattern.split_first() {
        None => actual.is_empty(),
        Some((&"...", rest)) => (0..=actual.len()).any(|skip| lines_match(rest, &actual[skip..])),
        Some((first, rest)) => match actual.split_first() {
            Some((line, others)) => line_matches(first, line) && lines_match(rest, others),
            None => false,
        },
    }
}

fn line_matches(pattern: &str, line: &str) -> bool {
    match pattern.split_once("[..]") {
        None => pattern == line,
        Some((head, tail)) => {
            line.starts_with(head)
                && (head.len()..=line.len())
                    .filter(|at| line.is_char_boundary(*at))
                    .any(|at| line_matches(tail, &line[at..]))
        }
    }
}

fn check(
    cases: fn() -> Vec<Trial<Runner>>,
    args: &[&str],
    code: i32,
    single: &str,
    parallel: &str,
) {
    let mut one = text(args);
    one.push("--test-threads".to_string());
    one.push("1".to_string());
    let one: Vec<&str> = one.iter().map(|a| a.as_str()).collect();
    let (exit, out) = harness(&one, cases(), Some(4));
    assert_eq!(exit, code);
    assert!(matches(single, &out), "expected:\n{}\nactual:\n{}", single, out);
    let (exit, out) = harness(args, cases(), Some(4));
    assert_eq!(exit, code);
    assert!(matches(parallel, &out), "expected:\n{}\nactual:\n{}", parallel, out);
}

fn passes(_state: &State) -> Result<(), RunError> {
    Ok(())
}

/// A case that crashes with the message `uh oh`, as the harness sees it.
fn panics(_state: &State) -> Result<(), RunError> {
    Err(crashed(Some("uh oh")))
}

fn cases() -> Vec<Trial<Runner>> {
    vec![trial("passes", passes), trial("panics", panics)]
}

#[test]
fn panic_normal() {
    check(
        cases,
        &[],
        101,
        r#"
running 2 tests
test panics ... FAILED
test passes ... ok

failures:

---- panics ----
test panicked: uh oh


failures:
    panics

test result: FAILED. 1 passed; 1 failed; 0 ignored; 0 filtered out; finished in [..]s

"#,
        r#"
running 2 tests
...

failures:

---- panics ----
test panicked: uh oh


failures:
    panics

test result: FAILED. 1 passed; 1 failed; 0 ignored; 0 filtered out; finished in [..]s

"#,
    );
}

fn fails_with_x(_state: &State) -> Result<(), RunError> {
    Err(RunError::fail("x"))
}

#[test]
fn a_failure_among_passes_fails_the_run() {
    let cases = vec![trial("cat", passes), trial("dog", fails_with_x), trial("fox", passes)];
    let (exit, out) = harness(&["--quiet", "--test-threads", "1"], cases, Some(4));
    assert_eq!(exit, 101);
    assert!(matches(
        "\nrunning 3 tests\n.F.\nfailures:\n\n---- dog ----\nx\n\n\nfailures:\n    dog\n\n\
         test result: FAILED. 2 passed; 1 failed; 0 ignored; 0 filtered out; finished in [..]s\n\n",
        &out
    ));
}

#[test]
fn three_passes_end_with_code_zero() {
    let cases = vec![trial("foo", passes), trial("bar", passes), trial("barro", passes)];
    let (exit, out) = harness(&[], cases, None);
    assert_eq!(exit, 0);
    assert!(out.contains("test result: ok. 3 passed; 0 failed; 0 ignored; 0 filtered out;"));
}

#[test]
fn arguments_that_are_refused_end_with_code_one() {
    let (exit, out) = harness(&["--color", "blue"], cases(), None);
    assert_eq!(exit, 1);
    assert_eq!(out, "");
}
