use libtest2::args::ErrorContext;
use libtest2::args::Parser;
use libtest2::builder::Env;
use libtest2::builder::TestOptsBuilder;
use libtest2::case::Case;
use libtest2::case::RunError;
use libtest2::case::Trial;
use libtest2::discover::discover;
use libtest2::event::Elapsed;
use libtest2::event::Event;
use libtest2::harness::exit_code;
use libtest2::harness::notifier;
use libtest2::harness::run;
use libtest2::harness::run_state;
use libtest2::harness::unsupported;
use libtest2::harness::Ending;
use libtest2::harness::Renderer;
use libtest2::options::TestOpts;
use libtest2::scheduler::Step;
use libtest2::state::State;

type Runner = Box<dyn Fn(&State) -> Result<(), RunError> + Send + Sync>;

fn trial(name: &str, runner: fn(&State) -> Result<(), RunError>) -> Trial<Runner> {
    Trial::test(name, Box::new(runner))
}

fn text(args: &[&str]) -> Vec<String> {
    args.iter().map(|a| a.to_string()).collect()
}

/// Reads the options from the arguments that follow the name of the binary.
fn options(args: &[&str], env: &Env) -> Result<TestOpts, String> {
    let mut raw = vec!["test".to_string()];
    raw.extend(text(args));
    let mut parser = Parser::new(raw);
    let _bin = parser.next_raw();
    let mut builder = TestOptsBuilder::new();
    while let Some(arg) = parser.next_arg() {
        match builder.parse_next(&mut parser, arg, env) {
            Ok(None) => {}
            Ok(Some(arg)) => {
                let rest = ErrorContext::msg("unexpected argument").unexpected(arg);
                return Err(rest.to_string());
            }
            Err(e) => return Err(e.to_string()),
        }
    }
    builder.finish(env).map_err(|e| e.to_string())
}

fn write(out: &mut String, renderer: &mut Renderer, event: &Event) {
    let styled = renderer.notify(event).expect("the event can be rendered");
    out.push_str(&anstream::adapter::strip_str(&styled).to_string());
}

/// Runs the cases as a test binary would, and returns the exit code and
/// what was written. `workers` stands for the number of processors. Each
/// case runs when it is started; with several workers the reports come in
/// latest first.
fn harness(args: &[&str], cases: Vec<Trial<Runner>>, workers: Option<usize>) -> (i32, String) {
    let env = Env::empty();
    let mut opts = match options(args, &env) {
        Ok(opts) => opts,
        Err(_) => return (exit_code(Ending::Misconfigured), String::new()),
    };
    if opts.test_threads.is_none() {
        opts.test_threads = workers;
    }
    let mut out = String::new();
    let mut renderer = notifier(&opts);
    let mut cases = cases;
    for event in discover(&opts, &mut cases, 0) {
        write(&mut out, &mut renderer, &event);
    }
    if opts.list {
        return (exit_code(Ending::Listed), out);
    }
    let (mut scheduler, opening) = run(&opts, &cases);
    write(&mut out, &mut renderer, &opening);
    assert_eq!(unsupported(&opts), None);
    renderer.threaded(scheduler.is_multithreaded());
    let state = run_state(&opts);
    let mut reports: Vec<(usize, Result<(), RunError>)> = Vec::new();
    loop {
        match scheduler.next_step() {
            Step::Start { index, event } => {
                write(&mut out, &mut renderer, &event);
                reports.push((index, cases[index].run(&state)));
            }
            Step::Wait => {
                let (index, outcome) = reports.pop().expect("a worker reports");
                let event = scheduler
                    .complete(index, &outcome, Elapsed { secs: 0, nanos: 0 })
                    .expect("the case was running");
                write(&mut out, &mut renderer, &event);
            }
            Step::Finish => break,
        }
    }
    let closing = scheduler.finish().expect("the suite can be closed");
    write(&mut out, &mut renderer, &closing);
    (exit_code(Ending::Ran { success: scheduler.success() }), out)
}

/// Whether `actual` reads as `pattern` does, where `[..]` in a line of the
/// pattern stands for any text and a line `...` for any lines.
fn matches(pattern: &str, actual: &str) -> bool {
    let pattern: Vec<&str> = pattern.split('\n').collect();
    let actual: Vec<&str> = actual.split('\n').collect();
    lines_match(&pattern, &actual)
}

fn lines_match(pattern: &[&str], actual: &[&str]) -> bool {
    match pattern.split_first() {
        None => actual.is_empty(),
        Some((&"...", rest)) => (0..=actual.len()).any(|skip| lines_match(rest, &actual[skip..])),
        Some((first, rest)) => match actual.split_first() {
            Some((line, others)) => line_matches(first, line) && lines_match(rest, others),
            None => false,
        },
    }
}

fn line_matches(pattern: &str, line: &str) -> bool {
    match pattern.split_once("[..]") {
        None => pattern == line,
        Some((head, tail)) => {
            line.starts_with(head)
                && (head.len()..=line.len())
                    .filter(|at| line.is_char_boundary(*at))
                    .any(|at| line_matches(tail, &line[at..]))
        }
    }
}

fn check(
    cases: fn() -> Vec<Trial<Runner>>,
    args: &[&str],
    code: i32,
    single: &str,
    parallel: &str,
) {
    let mut one = text(args);
    one.push("--test-threads".to_string());
    one.push("1".to_string());
    let one: Vec<&str> = one.iter().map(|a| a.as_str()).collect();
    let (exit, out) = harness(&one, cases(), Some(4));
    assert_eq!(exit, code);
    assert!(matches(single, &out), "expected:\n{}\nactual:\n{}", single, out);
    let (exit, out) = harness(args, cases(), Some(4));
    assert_eq!(exit, code);
    assert!(matches(parallel, &out), "expected:\n{}\nactual:\n{}", parallel, out);
}

fn cat(_state: &State) -> Result<(), RunError> {
    Ok(())
}

fn dog(_state: &State) -> Result<(), RunError> {
    Err(RunError::fail("was not a good boy"))
}

fn fox(_state: &State) -> Result<(), RunError> {
    Ok(())
}

fn bunny(state: &State) -> Result<(), RunError> {
    state.ignore_for("fails")?;
    Err(RunError::fail("jumped too high"))
}

fn frog(state: &State) -> Result<(), RunError> {
    state.ignore_for("slow")?;
    Ok(())
}

fn owl(state: &State) -> Result<(), RunError> {
    state.ignore_for("fails")?;
    Err(RunError::fail("broke neck"))
}

fn fly(state: &State) -> Result<(), RunError> {
    state.ignore_for("fails")?;
    Ok(())
}

fn bear(state: &State) -> Result<(), RunError> {
    state.ignore_for("fails")?;
    Err(RunError::fail("no honey"))
}

fn cases() -> Vec<Trial<Runner>> {
    vec![
        trial("cat", cat),
        trial("dog", dog),
        trial("fox", fox),
        trial("bunny", bunny),
        trial("frog", frog),
        trial("owl", owl),
        trial("fly", fly),
        trial("bear", bear),
    ]
}

#[test]
fn mixed_bag_normal() {
    check(
        cases,
        &[],
        101,
        r#"
running 8 tests
test bear  ... ignored
test bunny ... ignored
test cat   ... ok
test dog   ... FAILED
test fly   ... ignored
test fox   ... ok
test frog  ... ignored
test owl   ... ignored

failures:

---- dog ----
was not a good boy


failures:
    dog

test result: FAILED. 2 passed; 1 failed; 5 ignored; 0 filtered out; finished in [..]s

"#,
        r#"
running 8 tests
...

failures:

---- dog ----
was not a good boy


failures:
    dog

test result: FAILED. 2 passed; 1 failed; 5 ignored; 0 filtered out; finished in [..]s

"#,
    )
}

#[test]
fn mixed_bag_test_mode() {
    check(
        cases,
        &["--test"],
        101,
        r#"
running 8 tests
test bear  ... ignored
test bunny ... ignored
test cat   ... ok
test dog   ... FAILED
test fly   ... ignored
test fox   ... ok
test frog  ... ignored
test owl   ... ignored

failures:

---- dog ----
was not a good boy


failures:
    dog

test result: FAILED. 2 passed; 1 failed; 5 ignored; 0 filtered out; finished in [..]s

"#,
        r#"
running 8 tests
...

failures:

---- dog ----
was not a good boy


failures:
    dog

test result: FAILED. 2 passed; 1 failed; 5 ignored; 0 filtered out; finished in [..]s

"#,
    )
}

#[test]
fn mixed_bag_bench_mode() {
    check(
        cases,
        &["--bench"],
        101,
        r#"
running 8 tests
test bear  ... ignored
test bunny ... ignored
test cat   ... ok
test dog   ... FAILED
test fly   ... ignored
test fox   ... ok
test frog  ... ignored
test owl   ... ignored

failures:

---- dog ----
was not a good boy


failures:
    dog

test result: FAILED. 2 passed; 1 failed; 5 ignored; 0 filtered out; finished in [..]s

"#,
        r#"
running 8 tests
...

failures:

---- dog ----
was not a good boy


failures:
    dog

test result: FAILED. 2 passed; 1 failed; 5 ignored; 0 filtered out; finished in [..]s

"#,
    )
}

#[test]
fn mixed_bag_list() {
    check(
        cases,
        &["--list"],
        0,
        r#"bear: test
bunny: test
cat: test
dog: test
fly: test
fox: test
frog: test
owl: test

8 tests

"#,
        r#"bear: test
bunny: test
cat: test
dog: test
fly: test
fox: test
frog: test
owl: test

8 tests

"#,
    )
}

#[test]
fn mixed_bag_list_ignored() {
    check(
        cases,
        &["--list", "--ignored"],
        0,
        r#"bear: test
bunny: test
cat: test
dog: test
fly: test
fox: test
frog: test
owl: test

8 tests

"#,
        r#"bear: test
bunny: test
cat: test
dog: test
fly: test
fox: test
frog: test
owl: test

8 tests

"#,
    );
}

#[test]
fn mixed_bag_list_with_filter() {
    check(
        cases,
        &["--list", "a"],
        0,
        r#"bear: test
cat: test

2 tests

"#,
        r#"bear: test
cat: test

2 tests

"#,
    );
}

#[test]
fn mixed_bag_filter_c() {
    check(
        cases,
        &["a"],
        0,
        r#"
running 2 tests
test bear ... ignored
test cat  ... ok

test result: ok. 1 passed; 0 failed; 1 ignored; 6 filtered out; finished in [..]s

"#,
        r#"
running 2 tests
...

test result: ok. 1 passed; 0 failed; 1 ignored; 6 filtered out; finished in [..]s

"#,
    )
}

#[test]
fn mixed_bag_filter_o_test() {
    check(
        cases,
        &["--test", "a"],
        0,
        r#"
running 2 tests
test bear ... ignored
test cat  ... ok

test result: ok. 1 passed; 0 failed; 1 ignored; 6 filtered out; finished in [..]s

"#,
        r#"
running 2 tests
...

test result: ok. 1 passed; 0 failed; 1 ignored; 6 filtered out; finished in [..]s

"#,
    );
}

#[test]
fn mixed_bag_filter_o_test_include_ignored() {
    check(
        cases,
        &["--test", "--include-ignored", "o"],
        101,
        r#"
running 4 tests
test dog  ... FAILED
test fox  ... ok
test frog ... ok
test owl  ... FAILED

failures:

---- dog ----
was not a good boy

---- owl ----
broke neck


failures:
    dog
    owl

test result: FAILED. 2 passed; 2 failed; 0 ignored; 4 filtered out; finished in [..]s

"#,
        r#"
running 4 tests
...

failures:

---- dog ----
was not a good boy

---- owl ----
broke neck


failures:
    dog
    owl

test result: FAILED. 2 passed; 2 failed; 0 ignored; 4 filtered out; finished in [..]s

"#,
    )
}

#[test]
fn mixed_bag_filter_o_test_ignored() {
    check(
        cases,
        &["--test", "--ignored", "o"],
        101,
        r#"
running 4 tests
test dog  ... FAILED
test fox  ... ok
test frog ... ok
test owl  ... FAILED

failures:

---- dog ----
was not a good boy

---- owl ----
broke neck


failures:
    dog
    owl

test result: FAILED. 2 passed; 2 failed; 0 ignored; 4 filtered out; finished in [..]s

"#,
        r#"
running 4 tests
...

failures:

---- dog ----
was not a good boy

---- owl ----
broke neck


failures:
    dog
    owl

test result: FAILED. 2 passed; 2 failed; 0 ignored; 4 filtered out; finished in [..]s

"#,
    )
}

#[test]
fn mixed_bag_normal_include_ignored() {
    check(
        cases,
        &["--include-ignored"],
        101,
        r#"
running 8 tests
test bear  ... FAILED
test bunny ... FAILED
test cat   ... ok
test dog   ... FAILED
test fly   ... ok
test fox   ... ok
test frog  ... ok
test owl   ... FAILED

failures:

---- bear ----
no honey

---- bunny ----
jumped too high

---- dog ----
was not a good boy

---- owl ----
broke neck


failures:
    bear
    bunny
    dog
    owl

test result: FAILED. 4 passed; 4 failed; 0 ignored; 0 filtered out; finished in [..]s

"#,
        r#"
running 8 tests
...

failures:

---- bear ----
no honey

---- bunny ----
jumped too high

---- dog ----
was not a good boy

---- owl ----
broke neck


failures:
    bear
    bunny
    dog
    owl

test result: FAILED. 4 passed; 4 failed; 0 ignored; 0 filtered out; finished in [..]s

"#,
    )
}

#[test]
fn mixed_bag_normal_ignored() {
    check(
        cases,
        &["--ignored"],
        101,
        r#"
running 8 tests
test bear  ... FAILED
test bunny ... FAILED
test cat   ... ok
test dog   ... FAILED
test fly   ... ok
test fox   ... ok
test frog  ... ok
test owl   ... FAILED

failures:

---- bear ----
no honey

---- bunny ----
jumped too high

---- dog ----
was not a good boy

---- owl ----
broke neck


failures:
    bear
    bunny
    dog
    owl

test result: FAILED. 4 passed; 4 failed; 0 ignored; 0 filtered out; finished in [..]s

"#,
        r#"
running 8 tests
...

failures:

---- bear ----
no honey

---- bunny ----
jumped too high

---- dog ----
was not a good boy

---- owl ----
broke neck


failures:
    bear
    bunny
    dog
    owl

test result: FAILED. 4 passed; 4 failed; 0 ignored; 0 filtered out; finished in [..]s

"#,
    )
}

#[test]
fn mixed_bag_lots_of_flags() {
    check(
        cases,
        &["--ignored", "--skip", "g", "--test", "o"],
        101,
        r#"
running 2 tests
test fox ... ok
test owl ... FAILED

failures:

---- owl ----
broke neck


failures:
    owl

test result: FAILED. 1 passed; 1 failed; 0 ignored; 6 filtered out; finished in [..]s

"#,
        r#"
running 2 tests
...

failures:

---- owl ----
broke neck


failures:
    owl

test result: FAILED. 1 passed; 1 failed; 0 ignored; 6 filtered out; finished in [..]s

"#,
    )
}

#[test]
fn list_json() {
    check(
        cases,
        &["-Zunstable-options", "--format=json", "--list", "a"],
        0,
        r#"{"event":"discover-start"}
{"event":"discover-case","name":"bear","mode":"test","run":true}
{"event":"discover-case","name":"bunny","mode":"test","run":false}
{"event":"discover-case","name":"cat","mode":"test","run":true}
{"event":"discover-case","name":"dog","mode":"test","run":false}
{"event":"discover-case","name":"fly","mode":"test","run":false}
{"event":"discover-case","name":"fox","mode":"test","run":false}
{"event":"discover-case","name":"frog","mode":"test","run":false}
{"event":"discover-case","name":"owl","mode":"test","run":false}
{"event":"discover-complete","elapsed_s":"[..]","seed":null}
"#,
        r#"{"event":"discover-start"}
{"event":"discover-case","name":"bear","mode":"test","run":true}
{"event":"discover-case","name":"bunny","mode":"test","run":false}
{"event":"discover-case","name":"cat","mode":"test","run":true}
{"event":"discover-case","name":"dog","mode":"test","run":false}
{"event":"discover-case","name":"fly","mode":"test","run":false}
{"event":"discover-case","name":"fox","mode":"test","run":false}
{"event":"discover-case","name":"frog","mode":"test","run":false}
{"event":"discover-case","name":"owl","mode":"test","run":false}
{"event":"discover-complete","elapsed_s":"[..]","seed":null}
"#,
    )
}

#[test]
fn test_json() {
    check(
        cases,
        &["-Zunstable-options", "--format=json", "a"],
        0,
        r#"{"event":"discover-start"}
{"event":"discover-case","name":"bear","mode":"test","run":true}
{"event":"discover-case","name":"bunny","mode":"test","run":false}
{"event":"discover-case","name":"cat","mode":"test","run":true}
{"event":"discover-case","name":"dog","mode":"test","run":false}
{"event":"discover-case","name":"fly","mode":"test","run":false}
{"event":"discover-case","name":"fox","mode":"test","run":false}
{"event":"discover-case","name":"frog","mode":"test","run":false}
{"event":"discover-case","name":"owl","mode":"test","run":false}
{"event":"discover-complete","elapsed_s":"[..]","seed":null}
{"event":"suite-start"}
{"event":"case-start","name":"bear"}
{"event":"case-complete","name":"bear","mode":"test","status":"ignored","message":"fails","elapsed_s":"[..]"}
{"event":"case-start","name":"cat"}
{"event":"case-complete","name":"cat","mode":"test","status":null,"message":null,"elapsed_s":"[..]"}
{"event":"suite-complete","elapsed_s":"[..]"}
"#,
        r#"{"event":"discover-start"}
{"event":"discover-case","name":"bear","mode":"test","run":true}
{"event":"discover-case","name":"bunny","mode":"test","run":false}
{"event":"discover-case","name":"cat","mode":"test","run":true}
{"event":"discover-case","name":"dog","mode":"test","run":false}
{"event":"discover-case","name":"fly","mode":"test","run":false}
{"event":"discover-case","name":"fox","mode":"test","run":false}
{"event":"discover-case","name":"frog","mode":"test","run":false}
{"event":"discover-case","name":"owl","mode":"test","run":false}
{"event":"discover-complete","elapsed_s":"[..]","seed":null}
{"event":"suite-start"}
[..]
[..]
[..]
[..]
{"event":"suite-complete","elapsed_s":"[..]"}
"#,
    )
}

#[test]
fn list_junit() {
    check(
        cases,
        &["-Zunstable-options", "--format=junit", "--list", "a"],
        0,
        r#"bear: test
cat: test

2 tests

"#,
        r#"bear: test
cat: test

2 tests

"#,
    )
}

#[test]
fn test_junit() {
    check(
        cases,
        &["-Zunstable-options", "--format=junit", "a"],
        0,
        r#"<?xml version="1.0" encoding="UTF-8"?>
<testsuites>
<testsuite name="test" package="test" id="0" tests="2" errors="0" failures="0" skipped="1" >
<testcase classname="crate" name="cat" time="0.000s"/>
<system-out/>
<system-err/>
</testsuite>
</testsuites>
"#,
        r#"<?xml version="1.0" encoding="UTF-8"?>
<testsuites>
<testsuite name="test" package="test" id="0" tests="2" errors="0" failures="0" skipped="1" >
<testcase classname="crate" name="cat" time="0.000s"/>
<system-out/>
<system-err/>
</testsuite>
</testsuites>
"#,
    )
}

#[test]
fn mixed_bag_terse_output() {
    check(
        cases,
        &["--quiet"],
        101,
        r#"
running 8 tests
ii.Fi.ii
failures:

---- dog ----
was not a good boy


failures:
    dog

test result: FAILED. 2 passed; 1 failed; 5 ignored; 0 filtered out; finished in [..]s

"#,
        r#"
running 8 tests
...
failures:

---- dog ----
was not a good boy


failures:
    dog

test result: FAILED. 2 passed; 1 failed; 5 ignored; 0 filtered out; finished in [..]s

"#,
    )
}

#[test]
fn shuffle() {
    check(
        cases,
        &["-Zunstable-options", "--list", "--shuffle-seed=1"],
        0,
        r#"fox: test
cat: test
fly: test
bear: test
owl: test
frog: test
bunny: test
dog: test

8 tests

"#,
        r#"fox: test
cat: test
fly: test
bear: test
owl: test
frog: test
bunny: test
dog: test

8 tests

"#,
    );
    check(
        cases,
        &["-Zunstable-options", "--list", "--shuffle-seed=2"],
        0,
        r#"owl: test
dog: test
fox: test
frog: test
bear: test
fly: test
bunny: test
cat: test

8 tests

"#,
        r#"owl: test
dog: test
fox: test
frog: test
bear: test
fly: test
bunny: test
cat: test

8 tests

"#,
    );
}
